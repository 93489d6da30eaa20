//! The shared state of the server, its limits, and what it does with a new connection.

use std::collections::HashMap;
use vstd::prelude::*;

use super::handler::Connection;
use crate::auth::{AuthManager, IpBackoffManager};
use crate::config::Config;
use crate::gamepad::{ControllerId, GamepadManager};
use crate::net::SocketAddrV4;
use crate::upnp::PortMapper;

verus! {

/// The status codes that the server answers with.
#[derive(Debug, Clone, Copy, PartialEq, Eq, Structural)]
pub enum StatusCode {
    Success,
    MovedPermanently,
    BadRequest,
    Forbidden,
    ServiceUnavailable,
}

impl StatusCode {
    /// The number of the code.
    pub open spec fn number(self) -> u16 {
        match self {
            StatusCode::Success => 200,
            StatusCode::MovedPermanently => 301,
            StatusCode::BadRequest => 400,
            StatusCode::Forbidden => 403,
            StatusCode::ServiceUnavailable => 503,
        }
    }

    /// The number of the code.
    pub fn as_u16(&self) -> (n: u16)
        ensures
            n == self.number(),
    {
        match self {
            StatusCode::Success => 200,
            StatusCode::MovedPermanently => 301,
            StatusCode::BadRequest => 400,
            StatusCode::Forbidden => 403,
            StatusCode::ServiceUnavailable => 503,
        }
    }
}

/// The gamepad manager, where the machine has one.
pub struct GamepadHandle {
    pub inner: Option<GamepadManager>,
}

impl GamepadHandle {
    /// The handle is `before` after a controller was asked for, and `id` is the number that
    /// came of it: none without a manager or from one that was shut down.
    pub open spec fn requested(self, before: GamepadHandle, id: Option<ControllerId>) -> bool {
        match before.inner {
            None => self.inner is None && id is None,
            Some(m) => {
                &&& self.inner is Some
                &&& self.inner->0.controllers() == m.controllers()
                &&& self.inner->0.is_closed() == m.is_closed()
                &&& if m.is_closed() {
                    id is None && self.inner->0.next_id() == m.next_id()
                } else {
                    id == Some(m.next_id() as u32) && self.inner->0.next_id() == if m.next_id()
                        < usize::MAX {
                        (m.next_id() + 1) as usize
                    } else {
                        0
                    }
                }
            },
        }
    }

    /// The handle is `before` after a controller was given up.
    pub open spec fn gave_up(self, before: GamepadHandle, id: ControllerId) -> bool {
        match before.inner {
            None => self.inner is None,
            Some(m) => {
                &&& self.inner is Some
                &&& self.inner->0.controllers() == m.controllers().remove(id)
                &&& self.inner->0.is_closed() == m.is_closed()
                &&& self.inner->0.next_id() == m.next_id()
            },
        }
    }

    /// Asks the manager for a new controller.
    pub fn request_controller(&mut self) -> (id: Option<ControllerId>)
        ensures
            final(self).requested(*old(self), id),
    {
        match &mut self.inner {
            None => None,
            Some(manager) => match manager.create_controller() {
                Ok(id) => Some(id),
                Err(_) => None,
            },
        }
    }

    /// Gives a controller up, and says whether the driver has one to unplug.
    pub fn destroy_controller(&mut self, id: ControllerId) -> (there: bool)
        ensures
            final(self).gave_up(*old(self), id),
            there == (old(self).inner matches Some(m) && m.controllers().contains(id)),
    {
        match &mut self.inner {
            None => false,
            Some(manager) => manager.destroy_controller(id),
        }
    }

    /// A handle on a manager, or on none.
    pub fn new(manager: Option<GamepadManager>) -> (handle: GamepadHandle)
        ensures
            handle.inner == manager,
    {
        GamepadHandle { inner: manager }
    }
}

/// The right to one of the connections.
#[derive(Debug)]
pub struct TotalPermit {
    _held: (),
}

/// The right to one of the connections that have not authenticated.
#[derive(Debug)]
pub struct UnauthPermit {
    _held: (),
}

/// Counts the connections, and apart from that those that have not authenticated.
///
/// A permit that was handed out is in use until it is given back.
#[derive(Debug)]
pub struct ConnectionLimiter {
    total: usize,
    unauth: usize,
    max_total: usize,
    max_unauth: usize,
}

impl ConnectionLimiter {
    /// How many connections there are.
    pub closed spec fn in_use(self) -> nat {
        self.total as nat
    }

    /// How many connections have not authenticated.
    pub closed spec fn unauth_in_use(self) -> nat {
        self.unauth as nat
    }

    /// How many connections there may be.
    pub closed spec fn capacity(self) -> nat {
        self.max_total as nat
    }

    /// How many connections may be there that have not authenticated.
    pub closed spec fn unauth_capacity(self) -> nat {
        self.max_unauth as nat
    }

    /// No limit is exceeded.
    pub open spec fn wf(self) -> bool {
        &&& self.in_use() <= self.capacity()
        &&& self.unauth_in_use() <= self.unauth_capacity()
    }

    /// The limits are those of `before`, and so are the uses but for the given changes.
    pub open spec fn moved(self, before: ConnectionLimiter, total: int, unauth: int) -> bool {
        &&& self.capacity() == before.capacity()
        &&& self.unauth_capacity() == before.unauth_capacity()
        &&& self.in_use() == before.in_use() + total
        &&& self.unauth_in_use() == before.unauth_in_use() + unauth
    }

    /// A limiter with nothing in use.
    pub fn new(max_total: usize, max_unauth: usize) -> (limiter: ConnectionLimiter)
        ensures
            limiter.wf(),
            limiter.in_use() == 0,
            limiter.unauth_in_use() == 0,
            limiter.capacity() == max_total,
            limiter.unauth_capacity() == max_unauth,
    {
        ConnectionLimiter { total: 0, unauth: 0, max_total, max_unauth }
    }

    /// Hands out a permit for a connection, unless all are in use.
    pub fn try_acquire_total(&mut self) -> (permit: Option<TotalPermit>)
        ensures
            permit is Some <==> old(self).in_use() < old(self).capacity(),
            permit is Some ==> final(self).moved(*old(self), 1, 0),
            permit is Some ==> final(self).in_use() == old(self).in_use() + 1,
            final(self).unauth_in_use() == old(self).unauth_in_use(),
            final(self).capacity() == old(self).capacity(),
            final(self).unauth_capacity() == old(self).unauth_capacity(),
            permit is None ==> *final(self) == *old(self),
            old(self).wf() ==> final(self).wf(),
    {
        if self.total < self.max_total {
            self.total += 1;
            Some(TotalPermit { _held: () })
        } else {
            None
        }
    }

    /// Hands out a permit for a connection that has not authenticated, unless all are in use.
    pub fn try_acquire_unauth(&mut self) -> (permit: Option<UnauthPermit>)
        ensures
            permit is Some <==> old(self).unauth_in_use() < old(self).unauth_capacity(),
            permit is Some ==> final(self).moved(*old(self), 0, 1),
            permit is Some ==> final(self).unauth_in_use() == old(self).unauth_in_use() + 1,
            final(self).in_use() == old(self).in_use(),
            final(self).capacity() == old(self).capacity(),
            final(self).unauth_capacity() == old(self).unauth_capacity(),
            permit is None ==> *final(self) == *old(self),
            old(self).wf() ==> final(self).wf(),
    {
        if self.unauth < self.max_unauth {
            self.unauth += 1;
            Some(UnauthPermit { _held: () })
        } else {
            None
        }
    }

    /// Takes a permit for a connection back.
    pub fn release_total(&mut self, permit: TotalPermit)
        requires
            old(self).in_use() > 0,
        ensures
            final(self).moved(*old(self), -1, 0),
            final(self).in_use() == old(self).in_use() - 1,
            final(self).unauth_in_use() == old(self).unauth_in_use(),
            final(self).capacity() == old(self).capacity(),
            final(self).unauth_capacity() == old(self).unauth_capacity(),
            old(self).wf() ==> final(self).wf(),
    {
        let TotalPermit { _held } = permit;
        self.total -= 1;
    }

    /// Takes a permit for a connection that has not authenticated back.
    pub fn release_unauth(&mut self, permit: UnauthPermit)
        requires
            old(self).unauth_in_use() > 0,
        ensures
            final(self).moved(*old(self), 0, -1),
            final(self).unauth_in_use() == old(self).unauth_in_use() - 1,
            final(self).in_use() == old(self).in_use(),
            final(self).capacity() == old(self).capacity(),
            final(self).unauth_capacity() == old(self).unauth_capacity(),
            old(self).wf() ==> final(self).wf(),
    {
        let UnauthPermit { _held } = permit;
        self.unauth -= 1;
    }

    /// How many connections there are.
    pub fn total_used(&self) -> (n: usize)
        ensures
            n == self.in_use(),
    {
        self.total
    }

    /// How many connections have not authenticated.
    pub fn unauth_used(&self) -> (n: usize)
        ensures
            n == self.unauth_in_use(),
    {
        self.unauth
    }
}

/// The counts move by what they are said to, each by itself, and the limits never.
pub proof fn lemma_moved_counts(
    before: ConnectionLimiter,
    after: ConnectionLimiter,
    total: int,
    unauth: int,
)
    requires
        after.moved(before, total, unauth),
    ensures
        after.in_use() == before.in_use() + total,
        after.unauth_in_use() == before.unauth_in_use() + unauth,
        after.capacity() == before.capacity(),
        after.unauth_capacity() == before.unauth_capacity(),
{
}

/// A limiter that has not moved is the same one.
pub proof fn lemma_unmoved(before: ConnectionLimiter, after: ConnectionLimiter)
    requires
        after.moved(before, 0, 0),
    ensures
        after == before,
{
}

/// To give a permit back undoes its acquisition.
pub proof fn lemma_release_undoes_acquire(
    before: ConnectionLimiter,
    during: ConnectionLimiter,
    after: ConnectionLimiter,
    total: int,
    unauth: int,
)
    requires
        during.moved(before, total, unauth),
        after.moved(during, -total, -unauth),
    ensures
        after == before,
{
}

/// What all connections share, and the connections themselves by number.
pub struct AppState {
    pub auth: AuthManager,
    pub gamepad: GamepadHandle,
    pub upnp: PortMapper,
    pub config: Config,
    pub connection_limiter: ConnectionLimiter,
    pub ip_backoff: IpBackoffManager,
    pub connections: HashMap<u64, Connection>,
}

/// The connections that have not authenticated.
pub open spec fn waiting(connections: Map<u64, Connection>) -> Set<u64> {
    connections.dom().filter(|id: u64| !connections[id].authenticated)
}

/// How a new or changed connection changes the number of those that have not authenticated.
pub proof fn lemma_waiting_insert(m: Map<u64, Connection>, id: u64, c: Connection)
    requires
        m.dom().finite(),
    ensures
        waiting(m).finite(),
        waiting(m.insert(id, c)).finite(),
        waiting(m.insert(id, c)).len() == waiting(m).len() + (if c.authenticated {
            0int
        } else {
            1
        }) - (if waiting(m).contains(id) {
            1int
        } else {
            0
        }),
{
    if c.authenticated {
        assert(waiting(m.insert(id, c)) =~= waiting(m).remove(id));
    } else {
        assert(waiting(m.insert(id, c)) =~= waiting(m).insert(id));
    }
}

/// How the end of one connection changes the number of those that have not authenticated.
pub proof fn lemma_waiting_remove(m: Map<u64, Connection>, id: u64)
    requires
        m.dom().finite(),
    ensures
        waiting(m).finite(),
        waiting(m.remove(id)).finite(),
        waiting(m.remove(id)).len() == waiting(m).len() - (if waiting(m).contains(id) {
            1int
        } else {
            0
        }),
{
    assert(waiting(m.remove(id)) =~= waiting(m).remove(id));
}

/// Whether a connection holds a session token.
pub open spec fn held(connections: Map<u64, Connection>, token: Seq<char>) -> bool {
    exists|id: u64|
        connections.contains_key(id) && (#[trigger] connections[id]).token() == Some(token)
}

/// Whether connections hold all of some session tokens.
pub open spec fn all_held(connections: Map<u64, Connection>, tokens: Set<Seq<char>>) -> bool {
    forall|token: Seq<char>| #[trigger] tokens.contains(token) ==> held(connections, token)
}

/// Tokens stay held when one connection comes, goes or changes: those that it does not hold any
/// more must be gone, and those that are new must be held.
pub proof fn lemma_held_kept(
    m1: Map<u64, Connection>,
    tokens1: Set<Seq<char>>,
    m2: Map<u64, Connection>,
    tokens2: Set<Seq<char>>,
    id: u64,
)
    requires
        all_held(m1, tokens1),
        forall|k: u64| k != id && #[trigger] m1.contains_key(k) ==> m2.contains_key(k) && m2[k]
            == m1[k],
        forall|t: Seq<char>| #[trigger]
            tokens2.contains(t) && (!tokens1.contains(t) || (m1.contains_key(id) && m1[id].token()
                == Some(t))) ==> m2.contains_key(id) && m2[id].token() == Some(t),
    ensures
        all_held(m2, tokens2),
{
    assert forall|t: Seq<char>| #[trigger] tokens2.contains(t) implies held(m2, t) by {
        if tokens1.contains(t) {
            assert(held(m1, t));
            let k = choose|k: u64| m1.contains_key(k) && (#[trigger] m1[k]).token() == Some(t);
            assert(m2.contains_key(k) && m2[k].token() == Some(t));
        } else {
            assert(m2[id].token() == Some(t));
        }
    }
}

impl AppState {
    /// The connections by number.
    pub open spec fn conns(self) -> Map<u64, Connection> {
        self.connections@
    }

    /// The permits in use are those of the connections, and the sessions and each connection
    /// are sound in themselves.
    pub open spec fn wf(self) -> bool {
        &&& self.auth.wf()
        &&& self.connection_limiter.wf()
        &&& self.conns().dom().finite()
        &&& self.connection_limiter.in_use() == self.conns().len()
        &&& self.connection_limiter.unauth_in_use() == waiting(self.conns()).len()
        &&& forall|id: u64| #[trigger] self.conns().contains_key(id) ==> self.conns()[id].wf()
    }

    /// Every session is held by a connection. It is so as long as sessions are opened by
    /// connections alone.
    pub open spec fn sessions_held(self) -> bool {
        all_held(self.conns(), self.auth.sessions())
    }

    /// Everything but the connections is as in `before`.
    pub open spec fn same_shared(self, before: AppState) -> bool {
        &&& self.auth == before.auth
        &&& self.gamepad == before.gamepad
        &&& self.upnp == before.upnp
        &&& self.config == before.config
        &&& self.connection_limiter == before.connection_limiter
        &&& self.ip_backoff == before.ip_backoff
    }

    /// A state without connections.
    pub fn new(
        auth: AuthManager,
        gamepad: GamepadHandle,
        upnp: PortMapper,
        config: Config,
        connection_limiter: ConnectionLimiter,
        ip_backoff: IpBackoffManager,
    ) -> (state: AppState)
        ensures
            state.auth == auth,
            state.gamepad == gamepad,
            state.upnp == upnp,
            state.config == config,
            state.connection_limiter == connection_limiter,
            state.ip_backoff == ip_backoff,
            state.conns() == Map::<u64, Connection>::empty(),
            auth.wf() && connection_limiter.wf() && connection_limiter.in_use() == 0
                && connection_limiter.unauth_in_use() == 0 ==> state.wf(),
            auth.sessions() == Set::<Seq<char>>::empty() ==> state.sessions_held(),
    {
        let state = AppState {
            auth,
            gamepad,
            upnp,
            config,
            connection_limiter,
            ip_backoff,
            connections: HashMap::new(),
        };
        assert(waiting(state.conns()) =~= Set::<u64>::empty());
        state
    }
}

/// A header of a response.
#[derive(Debug, Clone, Copy)]
pub struct Header {
    pub name: &'static str,
    pub value: &'static str,
}

/// The headers that every response carries.
pub open spec fn header_table() -> Seq<(Seq<char>, Seq<char>)> {
    seq![
        ("x-content-type-options"@, "nosniff"@),
        ("x-frame-options"@, "DENY"@),
        (
            "content-security-policy"@,
            "default-src 'self'; script-src 'self' 'unsafe-inline'; style-src 'self' 'unsafe-inline'; img-src 'self' data:; connect-src 'self' wss: ws:"@,
        ),
        ("referrer-policy"@, "no-referrer"@),
        (
            "permissions-policy"@,
            "geolocation=(), microphone=(), camera=(), payment=(), usb=(), bluetooth=()"@,
        ),
        ("strict-transport-security"@, "max-age=31536000; includeSubDomains"@),
    ]
}

/// The headers that every response carries.
pub fn security_headers() -> (headers: Vec<Header>)
    ensures
        headers@.map_values(|h: Header| (h.name@, h.value@)) == header_table(),
{
    let mut headers: Vec<Header> = Vec::new();
    headers.push(Header { name: "x-content-type-options", value: "nosniff" });
    headers.push(Header { name: "x-frame-options", value: "DENY" });
    headers.push(
        Header {
            name: "content-security-policy",
            value: "default-src 'self'; script-src 'self' 'unsafe-inline'; style-src 'self' 'unsafe-inline'; img-src 'self' data:; connect-src 'self' wss: ws:",
        },
    );
    headers.push(Header { name: "referrer-policy", value: "no-referrer" });
    headers.push(
        Header {
            name: "permissions-policy",
            value: "geolocation=(), microphone=(), camera=(), payment=(), usb=(), bluetooth=()",
        },
    );
    headers.push(
        Header {
            name: "strict-transport-security",
            value: "max-age=31536000; includeSubDomains",
        },
    );
    assert(headers@.map_values(|h: Header| (h.name@, h.value@)) =~= header_table());
    headers
}

/// How many bytes of a new connection are looked at.
pub const SNIFF_LEN: usize = 5;

/// Whether the first bytes of a connection are those of a TLS handshake.
pub open spec fn tls_hello(head: Seq<u8>) -> bool {
    &&& head.len() >= 2
    &&& head[0] == 0x16
    &&& head[1] == 0x03 || head[1] == 0x02
}

/// What becomes of a new connection.
#[derive(Debug, Clone, Copy, PartialEq, Eq, Structural)]
pub enum Dispatch {
    /// It is served over TLS.
    ServeTls,
    /// It is served as it is.
    ServePlain,
    /// It is sent to the TLS address.
    RedirectToTls,
    /// It is dropped: TLS is asked for where there is none.
    Refuse,
}

/// A TLS handshake is told by its first two bytes: the record type of a handshake and a major
/// version of three or two. What follows them makes no difference.
pub proof fn lemma_hello_by_two_bytes(first: u8, second: u8, rest: Seq<u8>, other: Seq<u8>)
    ensures
        tls_hello(seq![first, second] + rest) <==> first == 0x16 && (second == 0x03 || second
            == 0x02),
        tls_hello(seq![first, second] + rest) == tls_hello(seq![first, second] + other),
        !tls_hello(seq![first]),
        !tls_hello(Seq::<u8>::empty()),
{
    assert((seq![first, second] + rest)[0] == first);
    assert((seq![first, second] + rest)[1] == second);
    assert((seq![first, second] + other)[0] == first);
    assert((seq![first, second] + other)[1] == second);
}

/// What becomes of a connection that starts with some bytes.
pub fn dispatch(head: &[u8], tls_enabled: bool) -> (d: Dispatch)
    ensures
        d == match (tls_hello(head@), tls_enabled) {
            (true, true) => Dispatch::ServeTls,
            (true, false) => Dispatch::Refuse,
            (false, true) => Dispatch::RedirectToTls,
            (false, false) => Dispatch::ServePlain,
        },
        // The first two bytes decide, whatever follows them.
        head@.len() >= 2 && head@[0] == 0x16 && (head@[1] == 0x03 || head@[1] == 0x02) ==> d
            == if tls_enabled {
            Dispatch::ServeTls
        } else {
            Dispatch::Refuse
        },
        head@.len() < 2 || head@[0] != 0x16 || (head@[1] != 0x03 && head@[1] != 0x02) ==> d
            == if tls_enabled {
            Dispatch::RedirectToTls
        } else {
            Dispatch::ServePlain
        },
{
    let hello = head.len() >= 2 && head[0] == 0x16 && (head[1] == 0x03 || head[1] == 0x02);
    if hello {
        if tls_enabled {
            Dispatch::ServeTls
        } else {
            Dispatch::Refuse
        }
    } else {
        if tls_enabled {
            Dispatch::RedirectToTls
        } else {
            Dispatch::ServePlain
        }
    }
}

/// Where a plain request is sent to: the same host and path over TLS.
pub fn redirect_location(host: &str, path: &str) -> (s: String)
    ensures
        s@ == "https://"@ + host@ + path@,
{
    let mut s = "https://".to_owned();
    s.append(host);
    s.append(path);
    s
}

/// The answer to a plain request where TLS is spoken.
#[derive(Debug)]
pub struct Redirect {
    pub status: StatusCode,
    pub location: Option<String>,
}

/// Sends a plain request to the same host and path over TLS. One that names no host is
/// answered with 400.
pub fn redirect_to_tls(host: Option<&str>, path: &str) -> (r: Redirect)
    ensures
        match host {
            Some(h) => r.status == StatusCode::MovedPermanently && super::handler::text_of(
                r.location,
            ) == Some("https://"@ + h@ + path@) && r.location is Some && r.location->0@
                == "https://"@ + h@ + path@,
            None => r.status == StatusCode::BadRequest && r.location is None,
        },
{
    match host {
        Some(h) => Redirect {
            status: StatusCode::MovedPermanently,
            location: Some(redirect_location(h, path)),
        },
        None => Redirect { status: StatusCode::BadRequest, location: None },
    }
}

/// The scheme of the server's own addresses.
pub open spec fn scheme_name(secure: bool) -> Seq<char> {
    if secure {
        "https"@
    } else {
        "http"@
    }
}

/// The address of the server as a browser takes it.
pub fn server_url(secure: bool, addr: &SocketAddrV4) -> (s: String)
    ensures
        s@ == scheme_name(secure) + "://"@ + addr.notation(),
        secure ==> s@ =~= "https"@ + "://"@ + addr.notation(),
        !secure ==> s@ =~= "http"@ + "://"@ + addr.notation(),
{
    let mut s = if secure {
        "https".to_owned()
    } else {
        "http".to_owned()
    };
    s.append("://");
    let text = addr.to_string();
    s.append(text.as_str());
    s
}

} // verus!
