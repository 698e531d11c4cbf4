//! The shared connection state: the remote target a lookup resolved and the
//! bearer token a login produced. Every service reads a snapshot of this
//! state per request; the lookup, login and disconnect flows write it.
//!
//! The value-level state is `ContextState`, whose operations carry exact
//! contracts. `ConnectionContext` shares one `ContextState` between many
//! concurrent readers and exclusive writers through a verified
//! reader/writer lock, so an observed snapshot is always a complete,
//! well-formed pair, never a half-written one.

use vstd::prelude::*;
use vstd::rwlock::{RwLock, RwLockPredicate};
use vstd::string::StringExecFns;

verus! {

/// The remote server resolved by a successful discovery lookup: the scheme
/// and host to connect to, the server's protocol version (informational)
/// and the port.
pub struct LookupData {
    /// The scheme used to connect to the server, "http" or "https".
    pub scheme: String,
    /// The host address of the server.
    pub host: String,
    /// The server version reported by the server.
    pub version: String,
    /// The server port.
    pub port: u16,
}

impl LookupData {
    /// A target is well formed when its scheme is exactly "http" or
    /// "https".
    pub open spec fn wf(self) -> bool {
        self.scheme@ == "http"@ || self.scheme@ == "https"@
    }

    /// An exact copy of the target.
    pub fn duplicate(&self) -> (r: LookupData)
        ensures
            r == *self,
    {
        LookupData {
            scheme: self.scheme.clone(),
            host: self.host.clone(),
            version: self.version.clone(),
            port: self.port,
        }
    }
}

/// The URL of an endpoint on a target server: scheme, "://", host, then the
/// endpoint path.
pub open spec fn target_url_spec(t: LookupData, endpoint: Seq<char>) -> Seq<char> {
    t.scheme@ + "://"@ + t.host@ + endpoint
}

/// Builds the URL of `endpoint` on the target server.
pub fn create_target_url(target: &LookupData, endpoint: &str) -> (r: String)
    ensures
        r@ == target_url_spec(*target, endpoint@),
{
    let mut url = String::new();
    url.append(target.scheme.as_str());
    url.append("://");
    url.append(target.host.as_str());
    url.append(endpoint);
    proof {
        assert(url@ =~= target_url_spec(*target, endpoint@));
    }
    url
}

/// The paired connection state: the current remote target and the current
/// authentication token, each absent until the respective flow succeeds.
pub struct ContextState {
    /// The selected remote target, absent until a lookup succeeds and
    /// cleared on disconnect.
    pub target: Option<LookupData>,
    /// The bearer token, absent until a login succeeds and cleared on
    /// disconnect. Absence is a normal state, not a failure.
    pub token: Option<String>,
}

/// The state after a target write: the new target, the token unchanged.
pub open spec fn set_target_spec(s: ContextState, t: LookupData) -> ContextState {
    ContextState { target: Some(t), token: s.token }
}

/// The state after a token write: the new token, the target unchanged.
pub open spec fn set_token_spec(s: ContextState, tok: String) -> ContextState {
    ContextState { target: s.target, token: Some(tok) }
}

impl ContextState {
    /// A state is well formed when a present target is well formed.
    pub open spec fn wf(self) -> bool {
        match self.target {
            Some(t) => t.wf(),
            None => true,
        }
    }

    /// The empty state: no target, no token.
    pub fn empty() -> (r: ContextState)
        ensures
            r.target == None::<LookupData>,
            r.token == None::<String>,
            r.wf(),
    {
        ContextState { target: None, token: None }
    }

    /// Stores a new target, leaving the token unchanged.
    pub fn set_target(&mut self, t: LookupData)
        requires
            t.wf(),
        ensures
            *final(self) == set_target_spec(*old(self), t),
            final(self).wf(),
    {
        self.target = Some(t);
    }

    /// Stores a new token, leaving the target unchanged.
    pub fn set_token(&mut self, tok: String)
        requires
            old(self).wf(),
        ensures
            *final(self) == set_token_spec(*old(self), tok),
            final(self).wf(),
    {
        self.token = Some(tok);
    }

    /// Reads the current target.
    pub fn get_target(&self) -> (r: Option<LookupData>)
        ensures
            r == self.target,
    {
        match &self.target {
            Some(t) => Some(t.duplicate()),
            None => None,
        }
    }

    /// Reads the current token.
    pub fn get_token(&self) -> (r: Option<String>)
        ensures
            r == self.token,
    {
        match &self.token {
            Some(t) => Some(t.clone()),
            None => None,
        }
    }

    /// Clears both fields, the disconnect transition.
    pub fn clear(&mut self)
        ensures
            final(self).target == None::<LookupData>,
            final(self).token == None::<String>,
            final(self).wf(),
    {
        self.target = None;
        self.token = None;
    }
}

/// Law: a read that follows a target write observes exactly the written
/// target — never a partial or stale value — and the token is untouched by
/// the write. `ConnectionContext` serializes writers and keeps readers off
/// a state while it changes, so this carries over to every snapshot a
/// service takes.
pub proof fn lemma_target_write_then_read(s: ContextState, t: LookupData)
    requires
        t.wf(),
    ensures
        set_target_spec(s, t).target == Some(t),
        set_target_spec(s, t).token == s.token,
        set_target_spec(s, t).wf(),
{
}

/// The lock invariant of the shared state: only well-formed states are
/// ever stored.
pub struct ContextPred {}

impl RwLockPredicate<ContextState> for ContextPred {
    open spec fn inv(self, v: ContextState) -> bool {
        v.wf()
    }
}

/// The process-wide shared connection state: one `ContextState` behind a
/// reader/writer lock. Many concurrent readers (one per in-flight request)
/// share it with exclusive, infrequent writers; a reader always observes a
/// complete, well-formed pair.
pub struct ConnectionContext {
    lock: RwLock<ContextState, ContextPred>,
}

impl ConnectionContext {
    /// The lock of a well-formed context enforces the state invariant.
    pub closed spec fn wf(self) -> bool {
        self.lock.pred() == (ContextPred {  })
    }

    /// A fresh context holding no target and no token.
    pub fn new() -> (r: ConnectionContext)
        ensures
            r.wf(),
    {
        let state = ContextState::empty();
        ConnectionContext { lock: RwLock::new(state, Ghost(ContextPred {  })) }
    }

    /// Atomically replaces the target, leaving the token in place.
    pub fn write_target(&self, t: LookupData)
        requires
            self.wf(),
            t.wf(),
    {
        let (mut state, handle) = self.lock.acquire_write();
        state.set_target(t);
        handle.release_write(state);
    }

    /// Atomically replaces the token, leaving the target in place.
    pub fn write_token(&self, tok: String)
        requires
            self.wf(),
    {
        let (mut state, handle) = self.lock.acquire_write();
        state.set_token(tok);
        handle.release_write(state);
    }

    /// Reads the current target; a present value is always well formed.
    pub fn read_target(&self) -> (r: Option<LookupData>)
        requires
            self.wf(),
        ensures
            r matches Some(t) ==> t.wf(),
    {
        let read_handle = self.lock.acquire_read();
        let r = read_handle.borrow().get_target();
        read_handle.release_read();
        r
    }

    /// Reads the current token.
    pub fn read_token(&self) -> (r: Option<String>)
        requires
            self.wf(),
    {
        let read_handle = self.lock.acquire_read();
        let r = read_handle.borrow().get_token();
        read_handle.release_read();
        r
    }

    /// Reads the target and the token as one consistent snapshot: both
    /// come from the same read-locked state, so a write never lands
    /// between them.
    pub fn snapshot(&self) -> (r: (Option<LookupData>, Option<String>))
        requires
            self.wf(),
        ensures
            r.0 matches Some(t) ==> t.wf(),
    {
        let read_handle = self.lock.acquire_read();
        let state = read_handle.borrow();
        let target = state.get_target();
        let token = state.get_token();
        read_handle.release_read();
        (target, token)
    }

    /// Atomically clears both fields, the disconnect transition.
    pub fn clear(&self)
        requires
            self.wf(),
    {
        let (mut state, handle) = self.lock.acquire_write();
        state.clear();
        handle.release_write(state);
    }
}

} // verus!
