//! What the server does on a WebSocket: it lets a connection in, answers its messages, and
//! cleans up behind it.

use vstd::prelude::*;

use super::origin::validate_origin;
use super::server::{AppState, ConnectionLimiter, StatusCode, TotalPermit, UnauthPermit};
use crate::auth::PasswordCheck;
use crate::gamepad::manager::{DriverOutcome, GamepadError, XGamepad};
use crate::gamepad::types::{GamepadState, RumbleEvent};
use crate::gamepad::ControllerId;
use crate::net::IpAddr;
use crate::protocol::{ClientMessage, ServerMessage, ServerMessageView};
use crate::text::push_decimal;

verus! {

/// The largest message that a client may send, in bytes.
pub const MAX_WS_MESSAGE_SIZE: usize = 65536;

/// The shortest time between two updates of a pad, in nanoseconds.
pub const GAMEPAD_MIN_INTERVAL: u128 = 8_000_000;

/// What the pad is called.
pub const CONTROLLER_NAME: &'static str = "WebPad Virtual Controller";

/// What the query of a request for a WebSocket holds.
#[derive(Debug, Clone)]
pub struct WsQuery {
    pub token: Option<String>,
}

impl Default for WsQuery {
    fn default() -> (query: WsQuery)
        ensures
            query.token is None,
    {
        WsQuery { token: None }
    }
}

/// What the query of a request for the page holds.
#[derive(Debug, Clone)]
pub struct IndexQuery {
    pub token: Option<String>,
}

/// A connection of a client.
#[derive(Debug)]
pub struct Connection {
    pub ip: IpAddr,
    pub authenticated: bool,
    pub session_token: Option<String>,
    pub controller_id: Option<ControllerId>,
    /// The controller that was asked for and that the driver has not plugged in yet.
    pub pending_controller: Option<ControllerId>,
    pub last_gamepad_update: u128,
    pub last_heartbeat: u128,
    pub auth_failures: u32,
    pub total_permit: TotalPermit,
    pub unauth_permit: Option<UnauthPermit>,
}

/// The text of a string that may be there.
pub open spec fn text_of(s: Option<String>) -> Option<Seq<char>> {
    match s {
        Some(t) => Some(t@),
        None => None,
    }
}

impl Connection {
    /// The session token of the connection.
    pub open spec fn token(self) -> Option<Seq<char>> {
        text_of(self.session_token)
    }

    /// Until it authenticates, a connection holds a permit for that, and neither session nor
    /// controller. Afterwards it has a session token, and no such permit.
    pub open spec fn wf(self) -> bool {
        &&& self.authenticated <==> self.unauth_permit is None
        &&& self.authenticated <==> self.session_token is Some
        &&& self.controller_id is Some ==> self.authenticated
        &&& self.pending_controller is Some ==> self.authenticated
    }

    /// Whether a controller is the connection's own, plugged in or to be.
    pub open spec fn owns(self, controller: ControllerId) -> bool {
        self.controller_id == Some(controller) || self.pending_controller == Some(controller)
    }
}

/// Acquires what a connection needs: a permit for a connection, and, unless it comes with a
/// valid session token, one for a connection that has not authenticated. Where one of them is
/// not to be had, the answer is 503 and no permit is kept.
pub fn acquire_connection_permits(
    limiter: &mut ConnectionLimiter,
    _query: &WsQuery,
    pre_auth_token: Option<String>,
) -> (r: Result<(TotalPermit, Option<UnauthPermit>, Option<String>), StatusCode>)
    ensures
        match r {
            Ok((_, unauth, token)) => {
                &&& old(limiter).in_use() < old(limiter).capacity()
                &&& final(limiter).in_use() == old(limiter).in_use() + 1
                &&& final(limiter).unauth_in_use() == old(limiter).unauth_in_use()
                    + if pre_auth_token is None {
                    1int
                } else {
                    0
                }
                &&& final(limiter).capacity() == old(limiter).capacity()
                &&& final(limiter).unauth_capacity() == old(limiter).unauth_capacity()
                &&& token == pre_auth_token
                &&& unauth is Some <==> pre_auth_token is None
                &&& pre_auth_token is None ==> old(limiter).unauth_in_use() < old(
                    limiter,
                ).unauth_capacity()
                &&& final(limiter).moved(
                    *old(limiter),
                    1,
                    if pre_auth_token is None {
                        1
                    } else {
                        0
                    },
                )
            },
            Err(status) => {
                &&& status == StatusCode::ServiceUnavailable
                &&& old(limiter).in_use() >= old(limiter).capacity() || (pre_auth_token is None
                    && old(limiter).unauth_in_use() >= old(limiter).unauth_capacity())
                &&& *final(limiter) == *old(limiter)
            },
        },
{
    let total_permit = match limiter.try_acquire_total() {
        Some(permit) => permit,
        None => {
            return Err(StatusCode::ServiceUnavailable);
        },
    };
    if pre_auth_token.is_some() {
        return Ok((total_permit, None, pre_auth_token));
    }
    match limiter.try_acquire_unauth() {
        Some(permit) => Ok((total_permit, Some(permit), None)),
        None => {
            limiter.release_total(total_permit);
            proof {
                super::server::lemma_unmoved(*old(limiter), *limiter);
            }
            Err(StatusCode::ServiceUnavailable)
        },
    }
}

/// A set that holds all numbers below `n` holds at least `n` numbers.
proof fn lemma_numbers_below(s: Set<u64>, n: u64)
    requires
        s.finite(),
        forall|i: u64| i < n ==> #[trigger] s.contains(i),
    ensures
        n <= s.len(),
    decreases n,
{
    if n > 0 {
        let last = (n - 1) as u64;
        assert(s.contains(last));
        assert forall|i: u64| i < last implies #[trigger] s.remove(last).contains(i) by {
            assert(s.contains(i));
        }
        lemma_numbers_below(s.remove(last), last);
    }
}

impl AppState {
    /// Whether a query names the token of an open session.
    pub open spec fn token_valid(self, query: WsQuery) -> bool {
        match query.token {
            Some(token) => self.auth.sessions().contains(token@),
            None => false,
        }
    }

    /// With what a request for a WebSocket is refused, if it is.
    ///
    /// A page of another host is answered with 403, and so is an address that has failed too
    /// often, unless the request comes with a valid token. Where the permits are all in use,
    /// the answer is 503; a valid token makes up for the second permit.
    pub open spec fn refusal(
        self,
        ip: IpAddr,
        query: WsQuery,
        origin: Option<Seq<u8>>,
        host: Option<Seq<u8>>,
    ) -> Option<StatusCode> {
        if !super::origin::admissible(origin, host) {
            Some(StatusCode::Forbidden)
        } else if !self.token_valid(query) && self.ip_backoff.cut_off(ip) {
            Some(StatusCode::Forbidden)
        } else if self.connection_limiter.in_use() >= self.connection_limiter.capacity() {
            Some(StatusCode::ServiceUnavailable)
        } else if !self.token_valid(query) && self.connection_limiter.unauth_in_use()
            >= self.connection_limiter.unauth_capacity() {
            Some(StatusCode::ServiceUnavailable)
        } else {
            None
        }
    }

    /// The present reading of the clock.
    pub fn now(&self) -> (now: u128)
        ensures
            now <= crate::clock::MAX_READING,
    {
        self.ip_backoff.now()
    }

    /// The token of a query, where a session is open under it.
    fn pre_auth_token(&self, query: &WsQuery) -> (token: Option<String>)
        requires
            self.auth.wf(),
        ensures
            token == if self.token_valid(*query) {
                query.token
            } else {
                None
            },
    {
        match &query.token {
            Some(token) => if self.auth.validate_token(token.as_str()) {
                Some(token.clone())
            } else {
                None
            },
            None => None,
        }
    }

    /// A number that no connection has.
    fn free_number(&self) -> (id: u64)
        ensures
            !self.conns().contains_key(id),
    {
        broadcast use vstd::std_specs::hash::group_hash_axioms;

        let ghost len = vstd::std_specs::hash::spec_hash_map_len(&self.connections);
        let mut id: u64 = 0;
        while self.connections.contains_key(&id)
            invariant
                self.conns().dom().finite(),
                self.conns().len() == len,
                forall|i: u64| i < id ==> #[trigger] self.conns().dom().contains(i),
            decreases u64::MAX - id,
        {
            proof {
                let all = self.conns().dom();
                lemma_numbers_below(all, id);
                if id == u64::MAX {
                    assert forall|i: u64| i < id implies #[trigger] all.remove(id).contains(i) by {
                        assert(all.contains(i));
                    }
                    lemma_numbers_below(all.remove(id), id);
                }
            }
            id += 1;
        }
        id
    }

    /// Lets a request for a WebSocket in as a new connection, whose number is returned, or
    /// refuses it.
    pub fn ws_upgrade(
        &mut self,
        ip: IpAddr,
        query: &WsQuery,
        origin: Option<&[u8]>,
        host: Option<&[u8]>,
    ) -> (r: Result<u64, StatusCode>)
        requires
            old(self).wf(),
        ensures
            final(self).wf(),
            old(self).sessions_held() ==> final(self).sessions_held(),
            match old(self).refusal(
                ip,
                *query,
                super::origin::value_of(origin),
                super::origin::value_of(host),
            ) {
                Some(status) => r == Err::<u64, StatusCode>(status) && *final(self) == *old(self),
                None => r is Ok && final(self).opened(*old(self), r->Ok_0, ip, *query),
            },
    {
        broadcast use vstd::std_specs::hash::group_hash_axioms;

        if let Err(status) = validate_origin(origin, host) {
            return Err(status);
        }
        let pre_auth_token = self.pre_auth_token(query);
        if pre_auth_token.is_none() && self.ip_backoff.should_disconnect(ip) {
            return Err(StatusCode::Forbidden);
        }
        let id: u64 = self.free_number();
        match acquire_connection_permits(&mut self.connection_limiter, query, pre_auth_token) {
            Err(status) => Err(status),
            Ok((total_permit, unauth_permit, session_token)) => {
                let connection = Connection {
                    ip,
                    authenticated: session_token.is_some(),
                    session_token,
                    controller_id: None,
                    pending_controller: None,
                    last_gamepad_update: 0,
                    last_heartbeat: 0,
                    auth_failures: 0,
                    total_permit,
                    unauth_permit,
                };
                proof {
                    super::server::lemma_waiting_insert(self.conns(), id, connection);
                }
                self.connections.insert(id, connection);
                proof {
                    self.lemma_still_held(*old(self), id);
                }
                Ok(id)
            },
        }
    }

    /// The state is `before` with a new connection, let in by `query`.
    pub open spec fn opened(self, before: AppState, id: u64, ip: IpAddr, query: WsQuery) -> bool {
        let valid = before.token_valid(query);
        let c = self.conns()[id];
        &&& !before.conns().contains_key(id)
        &&& self.conns() == before.conns().insert(id, c)
        &&& c.wf()
        &&& c.ip == ip
        &&& c.authenticated == valid
        &&& c.token() == if valid {
            text_of(query.token)
        } else {
            None
        }
        &&& c.controller_id is None
        &&& c.pending_controller is None
        &&& c.auth_failures == 0
        &&& c.last_gamepad_update == 0
        &&& c.last_heartbeat == 0
        &&& self.connection_limiter.moved(
            before.connection_limiter,
            1,
            if valid {
                0
            } else {
                1
            },
        )
        &&& self.auth == before.auth
        &&& self.gamepad == before.gamepad
        &&& self.upnp == before.upnp
        &&& self.config == before.config
        &&& self.ip_backoff == before.ip_backoff
    }
}

/// What happens on a connection.
#[derive(Debug, Clone)]
pub enum SocketEvent {
    /// A message came.
    Message(ClientMessage),
    /// A text came that is no message.
    Malformed,
    /// A frame came that is neither text nor the end.
    OtherFrame,
    /// The client closed the connection.
    Closed,
    /// The connection broke.
    Failed,
    /// There is nothing more to come.
    Ended,
    /// The driver wants the pad to shake.
    Rumble(RumbleEvent),
    /// The driver will not shake the pad any more.
    RumbleEnded,
    /// The time for a heartbeat to come may be over.
    HeartbeatTimeout,
}

/// What is to be done about an event.
#[derive(Debug)]
pub enum Reaction {
    /// Nothing.
    Nothing,
    /// A message is sent.
    Send(ServerMessage),
    /// The client is in: the reply is sent, and a new controller, if there is to be one, is
    /// plugged in.
    Admit { reply: ServerMessage, create: Option<ControllerId> },
    /// The client is not in: the reply is sent, and nothing more is heard until the waiting
    /// time is over.
    Refuse { reply: ServerMessage, wait_ms: u64 },
    /// The client is not in, for good: the reply is sent, then the connection is closed.
    Expel { reply: ServerMessage },
    /// The address is still to wait: the event is put off until then.
    PutOff { nanos: u128 },
    /// A report is delivered to a controller.
    Update { controller: ControllerId, report: XGamepad },
    /// The driver's wishes are no longer asked for.
    StopRumble,
    /// The connection is closed.
    Close,
    /// The connection is over.
    End,
}

impl Reaction {
    /// Whether the connection comes to its end.
    pub open spec fn ends(self) -> bool {
        self is Expel || self is Close || self is End
    }

    /// Whether the connection comes to its end.
    pub fn is_end(&self) -> (b: bool)
        ensures
            b == self.ends(),
            b == (self is Expel || self is Close || self is End),
    {
        match self {
            Reaction::Expel { .. } => true,
            Reaction::Close => true,
            Reaction::End => true,
            _ => false,
        }
    }
}

/// What a client hears that has failed too often.
pub open spec fn too_many_failures() -> Seq<char> {
    "Too many failed attempts. Connection closed."@
}

/// What a client hears that has failed: how long it has to wait, and how many attempts it has
/// left.
pub open spec fn wrong_password(wait_ms: nat, left: nat) -> Seq<char> {
    "Wrong password. Wait "@ + crate::text::decimal(wait_ms) + "ms before retry. Attempts left: "@
        + crate::text::decimal(left) + "."@
}

/// What a client hears that has failed, as a string.
fn wrong_password_text(wait_ms: u64, left: u32) -> (s: String)
    ensures
        s@ == wrong_password(wait_ms as nat, left as nat),
{
    let mut s = "Wrong password. Wait ".to_owned();
    push_decimal(&mut s, wait_ms);
    s.append("ms before retry. Attempts left: ");
    push_decimal(&mut s, left as u64);
    s.append(".");
    s
}

/// The message that shakes a pad: the large motor is the left one, the small the right one.
pub open spec fn rumble_view(event: RumbleEvent) -> ServerMessageView {
    ServerMessageView::Rumble { left_motor: event.large_motor, right_motor: event.small_motor }
}

impl AppState {
    /// The state is `before` but for one connection, which is there in both.
    pub open spec fn only_connection(self, before: AppState, id: u64) -> bool {
        &&& before.conns().contains_key(id)
        &&& self.conns() == before.conns().insert(id, self.conns()[id])
    }

    /// How many more failures end a connection: what is left to it, or to its address where that
    /// is less.
    pub open spec fn attempts_left(self, id: u64) -> u32 {
        let c = self.conns()[id];
        let own = if c.auth_failures < self.config.max_auth_failures {
            (self.config.max_auth_failures - c.auth_failures) as u32
        } else {
            0
        };
        let shared = self.ip_backoff.attempts_left(c.ip);
        if own <= shared {
            own
        } else {
            shared
        }
    }

    /// How many nanoseconds are left at a point in time until a connection is over for want of
    /// a heartbeat; none once it is.
    pub open spec fn heartbeat_remaining(self, id: u64, now: u128) -> Option<u128> {
        let silent = now - self.conns()[id].last_heartbeat;
        let allowed = self.config.heartbeat_secs() * crate::clock::NANOS_PER_SEC;
        if silent < allowed {
            Some(
                (allowed - if silent > 0 {
                    silent
                } else {
                    0
                }) as u128,
            )
        } else {
            None
        }
    }

    /// The sessions once a connection has been given a new one.
    pub open spec fn renewed(self, id: u64, token: Seq<char>) -> Set<Seq<char>> {
        match self.conns()[id].token() {
            Some(previous) => self.auth.sessions().remove(previous).insert(token),
            None => self.auth.sessions().insert(token),
        }
    }

    /// A client has given the right password: its address is no longer held to wait, it has
    /// a new session in place of any old one, and if it was not in before, it gives the permit
    /// for that back and a controller is asked for.
    pub open spec fn admitted(self, before: AppState, id: u64, r: Reaction) -> bool {
        let c = before.conns()[id];
        &&& r is Admit
        &&& r->Admit_reply is AuthSuccess
        &&& crate::auth::token_shape(r->Admit_reply->token@)
        &&& self.only_connection(before, id)
        &&& self.conns()[id] == (Connection {
            authenticated: true,
            session_token: self.conns()[id].session_token,
            pending_controller: if c.authenticated {
                c.pending_controller
            } else {
                r->create
            },
            unauth_permit: None,
            ..c
        })
        &&& self.conns()[id].token() == Some(r->Admit_reply->token@)
        &&& self.auth.hash() == before.auth.hash()
        &&& self.auth.sessions() == before.renewed(id, r->Admit_reply->token@)
        &&& self.ip_backoff.forgot(before.ip_backoff, c.ip)
        &&& if c.authenticated {
            &&& r->create is None
            &&& self.gamepad == before.gamepad
            &&& self.connection_limiter == before.connection_limiter
        } else {
            &&& self.gamepad.requested(before.gamepad, r->create)
            &&& self.connection_limiter.moved(before.connection_limiter, 0, -1)
        }
        &&& self.upnp == before.upnp
        &&& self.config == before.config
    }

    /// A client has given a wrong password: the failure is counted for its address and for the
    /// connection. Where either has failed too often, the connection is closed; else the client
    /// has to wait, and hears how many attempts are left.
    pub open spec fn refused(self, before: AppState, id: u64, now: u128, r: Reaction) -> bool {
        let c = before.conns()[id];
        let failures = if c.auth_failures < u32::MAX {
            (c.auth_failures + 1) as u32
        } else {
            u32::MAX
        };
        &&& self.only_connection(before, id)
        &&& self.conns()[id] == (Connection { auth_failures: failures, ..c })
        &&& self.ip_backoff.failed(before.ip_backoff, c.ip, now)
        &&& if self.ip_backoff.cut_off(c.ip) || failures >= before.config.max_auth_failures {
            &&& r is Expel
            &&& r->Expel_reply@ == ServerMessageView::AuthFailure { reason: too_many_failures() }
        } else {
            &&& r is Refuse
            &&& r->wait_ms == before.ip_backoff.next_backoff(c.ip)
            &&& r->Refuse_reply@ == ServerMessageView::AuthFailure {
                reason: wrong_password(r->wait_ms as nat, self.attempts_left(id) as nat),
            }
        }
        &&& self.auth == before.auth
        &&& self.gamepad == before.gamepad
        &&& self.upnp == before.upnp
        &&& self.config == before.config
        &&& self.connection_limiter == before.connection_limiter
    }

    /// What a password that a client gives leads to. While its address is still to wait, it is
    /// not even looked at.
    pub open spec fn auth_step(
        self,
        before: AppState,
        id: u64,
        password: Seq<char>,
        now: u128,
        r: Reaction,
    ) -> bool {
        match crate::auth::remaining(before.ip_backoff.entry(before.conns()[id].ip), now) {
            Some(nanos) => self == before && r == (Reaction::PutOff { nanos }),
            None => if crate::password::accepts(password, before.auth.hash()) {
                self.admitted(before, id, r)
            } else {
                self.refused(before, id, now, r)
            },
        }
    }

    /// Whether a connection may move its pad at the time `now`.
    pub open spec fn pad_due(self, id: u64, now: u128) -> bool {
        let c = self.conns()[id];
        c.authenticated && now - c.last_gamepad_update >= GAMEPAD_MIN_INTERVAL
    }

    /// Whether a report can be delivered for a connection.
    pub open spec fn pad_ready(self, id: u64) -> bool {
        &&& self.conns()[id].controller_id is Some
        &&& self.gamepad.inner is Some
        &&& !self.gamepad.inner->0.is_closed()
        &&& self.gamepad.inner->0.controllers().contains(self.conns()[id].controller_id->0)
    }

    /// What a new state of the pad leads to: nothing from a client that is not in or that is
    /// too quick, else a report to its controller.
    pub open spec fn pad_step(
        self,
        before: AppState,
        id: u64,
        state: GamepadState,
        now: u128,
        r: Reaction,
    ) -> bool {
        if before.pad_due(id, now) {
            &&& self.only_connection(before, id)
            &&& self.conns()[id] == (Connection { last_gamepad_update: now, ..before.conns()[id] })
            &&& self.same_shared(before)
            &&& r == if before.pad_ready(id) {
                Reaction::Update {
                    controller: before.conns()[id].controller_id->0,
                    report: crate::gamepad::manager::report(state),
                }
            } else {
                Reaction::Nothing
            }
        } else {
            self == before && r is Nothing
        }
    }

    /// What an event on a connection leads to.
    pub open spec fn step(
        self,
        before: AppState,
        id: u64,
        event: SocketEvent,
        now: u128,
        r: Reaction,
    ) -> bool {
        match event {
            SocketEvent::Message(msg) => match msg {
                ClientMessage::AuthRequest { password } => self.auth_step(
                    before,
                    id,
                    password@,
                    now,
                    r,
                ),
                ClientMessage::GamepadState { .. } => self.pad_step(
                    before,
                    id,
                    crate::gamepad::types::carried(msg)->0,
                    now,
                    r,
                ),
                ClientMessage::Heartbeat => {
                    &&& self.only_connection(before, id)
                    &&& self.conns()[id] == (Connection {
                        last_heartbeat: now,
                        ..before.conns()[id]
                    })
                    &&& self.same_shared(before)
                    &&& if before.conns()[id].authenticated {
                        r is Send && r->Send_0@ == ServerMessageView::Pong
                    } else {
                        r is Nothing
                    }
                },
                ClientMessage::Disconnect { .. } => self == before && r is End,
            },
            SocketEvent::Malformed => self == before && r is Nothing,
            SocketEvent::OtherFrame => self == before && r is Nothing,
            SocketEvent::Closed => self == before && r is End,
            SocketEvent::Failed => self == before && r is End,
            SocketEvent::Ended => self == before && r is End,
            SocketEvent::Rumble(rumble) => self == before && r is Send && r->Send_0@
                == rumble_view(rumble),
            SocketEvent::RumbleEnded => self == before && r is StopRumble,
            SocketEvent::HeartbeatTimeout => {
                &&& self == before
                &&& if before.heartbeat_remaining(id, now) is None {
                    r is Close
                } else {
                    r is Nothing
                }
            },
        }
    }

    /// Does what an event on a connection asks for, and says what else is to be done.
    pub fn handle_event(&mut self, id: u64, event: &SocketEvent, now: u128) -> (r: Reaction)
        requires
            old(self).wf(),
            old(self).conns().contains_key(id),
            now <= crate::clock::MAX_READING,
        ensures
            final(self).wf(),
            old(self).sessions_held() ==> final(self).sessions_held(),
            final(self).step(*old(self), id, *event, now, r),
            final(self).conns().dom() == old(self).conns().dom(),
    {
        match event {
            SocketEvent::Message(msg) => match msg {
                ClientMessage::AuthRequest { password } => self.handle_auth_request(
                    id,
                    password.as_str(),
                    now,
                ),
                ClientMessage::GamepadState { .. } => {
                    match GamepadState::from_client_message(msg) {
                        Some(state) => self.update_gamepad_state(id, &state, now),
                        None => Reaction::Nothing,
                    }
                },
                ClientMessage::Heartbeat => self.heartbeat(id, now),
                ClientMessage::Disconnect { .. } => Reaction::End,
            },
            SocketEvent::Malformed => Reaction::Nothing,
            SocketEvent::OtherFrame => Reaction::Nothing,
            SocketEvent::Closed => Reaction::End,
            SocketEvent::Failed => Reaction::End,
            SocketEvent::Ended => Reaction::End,
            SocketEvent::Rumble(rumble) => Reaction::Send(
                ServerMessage::Rumble {
                    left_motor: rumble.large_motor,
                    right_motor: rumble.small_motor,
                },
            ),
            SocketEvent::RumbleEnded => Reaction::StopRumble,
            SocketEvent::HeartbeatTimeout => match self.heartbeat_left(id, now) {
                None => Reaction::Close,
                Some(_) => Reaction::Nothing,
            },
        }
    }

    /// Takes note of a heartbeat. A client that is in hears an answer.
    fn heartbeat(&mut self, id: u64, now: u128) -> (r: Reaction)
        requires
            old(self).wf(),
            old(self).conns().contains_key(id),
        ensures
            final(self).wf(),
            old(self).sessions_held() ==> final(self).sessions_held(),
            final(self).only_connection(*old(self), id),
            final(self).conns()[id] == (Connection {
                last_heartbeat: now,
                ..old(self).conns()[id]
            }),
            final(self).same_shared(*old(self)),
            final(self).conns().dom() == old(self).conns().dom(),
            if old(self).conns()[id].authenticated {
                r is Send && r->Send_0@ == ServerMessageView::Pong
            } else {
                r is Nothing
            },
    {
        let mut connection = self.take_connection(id);
        let authenticated = connection.authenticated;
        connection.last_heartbeat = now;
        self.put_connection(id, connection);
        proof {
            self.lemma_changed(*old(self), id);
        }
        if authenticated {
            Reaction::Send(ServerMessage::Pong)
        } else {
            Reaction::Nothing
        }
    }

    /// How many nanoseconds are left until a connection is over for want of a heartbeat; none
    /// once it is.
    pub fn heartbeat_left(&self, id: u64, now: u128) -> (left: Option<u128>)
        requires
            self.conns().contains_key(id),
        ensures
            left == self.heartbeat_remaining(id, now),
    {
        broadcast use vstd::std_specs::hash::group_hash_axioms;

        let last: u128 = self.connections.get(&id).unwrap().last_heartbeat;
        let allowed: u128 = self.config.silence_allowed() as u128 * crate::clock::NANOS_PER_SEC;
        let silent: u128 = now.saturating_sub(last);
        if silent < allowed {
            Some(allowed - silent)
        } else {
            None
        }
    }

    /// Whether a connection has authenticated.
    pub fn is_authenticated(&self, id: u64) -> (b: bool)
        requires
            self.conns().contains_key(id),
        ensures
            b == self.conns()[id].authenticated,
    {
        broadcast use vstd::std_specs::hash::group_hash_axioms;

        match self.connections.get(&id) {
            Some(connection) => connection.authenticated,
            None => false,
        }
    }

    /// Takes a connection out, to be put back changed.
    fn take_connection(&mut self, id: u64) -> (connection: Connection)
        requires
            old(self).conns().contains_key(id),
        ensures
            connection == old(self).conns()[id],
            final(self).conns() == old(self).conns().remove(id),
            final(self).same_shared(*old(self)),
    {
        broadcast use vstd::std_specs::hash::group_hash_axioms;

        self.connections.remove(&id).unwrap()
    }

    /// Puts a connection back.
    fn put_connection(&mut self, id: u64, connection: Connection)
        ensures
            final(self).conns() == old(self).conns().insert(id, connection),
            final(self).same_shared(*old(self)),
    {
        broadcast use vstd::std_specs::hash::group_hash_axioms;

        self.connections.insert(id, connection);
    }

    /// The address of a connection.
    fn address(&self, id: u64) -> (ip: IpAddr)
        requires
            self.conns().contains_key(id),
        ensures
            ip == self.conns()[id].ip,
    {
        broadcast use vstd::std_specs::hash::group_hash_axioms;

        self.connections.get(&id).unwrap().ip
    }

    /// Does what a password asks for that a client gives.
    pub fn handle_auth_request(&mut self, id: u64, password: &str, now: u128) -> (r: Reaction)
        requires
            old(self).wf(),
            old(self).conns().contains_key(id),
            now <= crate::clock::MAX_READING,
        ensures
            final(self).wf(),
            old(self).sessions_held() ==> final(self).sessions_held(),
            final(self).auth_step(*old(self), id, password@, now, r),
            final(self).conns().dom() == old(self).conns().dom(),
    {
        if let Some(nanos) = self.wait_left(id, now) {
            return Reaction::PutOff { nanos };
        }
        if self.auth.verify_password(password) {
            self.let_in(id)
        } else {
            self.turn_down(id, now)
        }
    }

    /// Does what a password asks for that a client gives, where it was held against the stored
    /// hash beforehand.
    pub fn handle_checked_request(&mut self, id: u64, check: &PasswordCheck, now: u128) -> (r:
        Reaction)
        requires
            old(self).wf(),
            old(self).conns().contains_key(id),
            now <= crate::clock::MAX_READING,
        ensures
            final(self).wf(),
            old(self).sessions_held() ==> final(self).sessions_held(),
            final(self).auth_step(*old(self), id, check.password(), now, r),
            final(self).conns().dom() == old(self).conns().dom(),
    {
        if let Some(nanos) = self.wait_left(id, now) {
            return Reaction::PutOff { nanos };
        }
        if self.auth.confirm(check) {
            self.let_in(id)
        } else {
            self.turn_down(id, now)
        }
    }

    /// How many nanoseconds the address of a connection has still to wait, if at all.
    pub fn wait_left(&self, id: u64, now: u128) -> (wait: Option<u128>)
        requires
            self.conns().contains_key(id),
        ensures
            wait == crate::auth::remaining(self.ip_backoff.entry(self.conns()[id].ip), now),
    {
        self.ip_backoff.check_backoff_at(self.address(id), now)
    }

    /// Lets a client in that has given the right password.
    fn let_in(&mut self, id: u64) -> (r: Reaction)
        requires
            old(self).wf(),
            old(self).conns().contains_key(id),
        ensures
            final(self).wf(),
            old(self).sessions_held() ==> final(self).sessions_held(),
            final(self).admitted(*old(self), id, r),
            final(self).conns().dom() == old(self).conns().dom(),
    {
        let Connection {
            ip,
            authenticated,
            session_token,
            controller_id,
            pending_controller,
            last_gamepad_update,
            last_heartbeat,
            auth_failures,
            total_permit,
            unauth_permit,
        } = self.take_connection(id);
        self.ip_backoff.reset_ip(ip);
        if let Some(previous) = session_token {
            self.auth.remove_session(previous.as_str());
        }
        let token = self.auth.create_session();
        let create = match unauth_permit {
            Some(permit) => {
                proof {
                    super::server::lemma_waiting_remove(old(self).conns(), id);
                    assert(super::server::waiting(old(self).conns()).contains(id));
                }
                self.connection_limiter.release_unauth(permit);
                self.gamepad.request_controller()
            },
            None => None,
        };
        let pending_controller = if authenticated {
            pending_controller
        } else {
            create
        };
        let connection = Connection {
            ip,
            authenticated: true,
            session_token: Some(token.clone()),
            controller_id,
            pending_controller,
            last_gamepad_update,
            last_heartbeat,
            auth_failures,
            total_permit,
            unauth_permit: None,
        };
        self.put_connection(id, connection);
        proof {
            super::server::lemma_waiting_insert(old(self).conns(), id, connection);
            assert(self.conns() =~= old(self).conns().insert(id, connection));
            assert(self.conns().dom() =~= old(self).conns().dom());
            self.lemma_still_held(*old(self), id);
        }
        Reaction::Admit { reply: ServerMessage::AuthSuccess { token }, create }
    }

    /// Turns a client down that has given a wrong password.
    fn turn_down(&mut self, id: u64, now: u128) -> (r: Reaction)
        requires
            old(self).wf(),
            old(self).conns().contains_key(id),
            now <= crate::clock::MAX_READING,
        ensures
            final(self).wf(),
            old(self).sessions_held() ==> final(self).sessions_held(),
            final(self).refused(*old(self), id, now, r),
            final(self).conns().dom() == old(self).conns().dom(),
    {
        let mut connection = self.take_connection(id);
        let ip = connection.ip;
        let failures: u32 = connection.auth_failures.saturating_add(1);
        connection.auth_failures = failures;
        self.put_connection(id, connection);
        proof {
            self.lemma_changed(*old(self), id);
        }
        let wait_ms: u64 = self.ip_backoff.record_failure_at(ip, now);
        if self.ip_backoff.should_disconnect(ip) || failures >= self.config.max_auth_failures {
            let reason = "Too many failed attempts. Connection closed.".to_owned();
            Reaction::Expel { reply: ServerMessage::AuthFailure { reason } }
        } else {
            let own: u32 = self.config.max_auth_failures - failures;
            let shared: u32 = self.ip_backoff.remaining_attempts(ip);
            let left: u32 = if own <= shared {
                own
            } else {
                shared
            };
            let reason = wrong_password_text(wait_ms, left);
            Reaction::Refuse { reply: ServerMessage::AuthFailure { reason }, wait_ms }
        }
    }

    /// A change of one connection leaves the sessions held that were, if those that it does not
    /// hold any more are gone and those that are new are its own.
    proof fn lemma_still_held(self, before: AppState, id: u64)
        requires
            forall|k: u64| k != id && #[trigger] before.conns().contains_key(k)
                ==> self.conns().contains_key(k) && self.conns()[k] == before.conns()[k],
            forall|t: Seq<char>| #[trigger]
                self.auth.sessions().contains(t) && (!before.auth.sessions().contains(t) || (
                before.conns().contains_key(id) && before.conns()[id].token() == Some(t)))
                    ==> self.conns().contains_key(id) && self.conns()[id].token() == Some(t),
        ensures
            before.sessions_held() ==> self.sessions_held(),
    {
        if before.sessions_held() {
            super::server::lemma_held_kept(
                before.conns(),
                before.auth.sessions(),
                self.conns(),
                self.auth.sessions(),
                id,
            );
        }
    }

    /// A change of a connection that touches neither its standing nor its session leaves the
    /// state sound.
    proof fn lemma_changed(self, before: AppState, id: u64)
        requires
            before.wf(),
            before.conns().contains_key(id),
            self.conns() == before.conns().remove(id).insert(id, self.conns()[id]),
            self.conns()[id].wf(),
            self.conns()[id].authenticated == before.conns()[id].authenticated,
            self.conns()[id].token() == before.conns()[id].token(),
            self.auth == before.auth,
            self.connection_limiter == before.connection_limiter,
        ensures
            self.wf(),
            before.sessions_held() ==> self.sessions_held(),
            self.only_connection(before, id),
            self.conns().dom() == before.conns().dom(),
    {
        super::server::lemma_waiting_insert(before.conns(), id, self.conns()[id]);
        assert(self.conns() =~= before.conns().insert(id, self.conns()[id]));
        assert(self.conns().dom() =~= before.conns().dom());
        self.lemma_still_held(before, id);
    }

    /// Does what a new state of the pad asks for.
    pub fn update_gamepad_state(&mut self, id: u64, state: &GamepadState, now: u128) -> (r:
        Reaction)
        requires
            old(self).wf(),
            old(self).conns().contains_key(id),
        ensures
            final(self).wf(),
            old(self).sessions_held() ==> final(self).sessions_held(),
            final(self).pad_step(*old(self), id, *state, now, r),
            final(self).conns().dom() == old(self).conns().dom(),
    {
        if !self.is_pad_due(id, now) {
            return Reaction::Nothing;
        }
        let mut connection = self.take_connection(id);
        let controller_id = connection.controller_id;
        connection.last_gamepad_update = now;
        self.put_connection(id, connection);
        proof {
            self.lemma_changed(*old(self), id);
        }
        match (controller_id, &self.gamepad.inner) {
            (Some(controller), Some(manager)) => match manager.update_state(controller, state) {
                Ok(report) => Reaction::Update { controller, report },
                Err(_) => Reaction::Nothing,
            },
            _ => Reaction::Nothing,
        }
    }

    /// Whether a connection may move its pad.
    fn is_pad_due(&self, id: u64, now: u128) -> (b: bool)
        requires
            self.conns().contains_key(id),
        ensures
            b == self.pad_due(id, now),
    {
        broadcast use vstd::std_specs::hash::group_hash_axioms;

        match self.connections.get(&id) {
            Some(connection) => connection.authenticated && now >= connection.last_gamepad_update
                && now - connection.last_gamepad_update >= GAMEPAD_MIN_INTERVAL,
            None => false,
        }
    }

    /// The state is `before` after the socket of a connection was opened: a controller is asked
    /// for if the client is in already.
    pub open spec fn socket_up(self, before: AppState, id: u64, create: Option<ControllerId>) -> bool {
        if before.conns()[id].authenticated {
            &&& self.gamepad.requested(before.gamepad, create)
            &&& self.only_connection(before, id)
            &&& self.conns()[id] == (Connection {
                pending_controller: create,
                ..before.conns()[id]
            })
            &&& self.same_shared((AppState { gamepad: self.gamepad, ..before }))
        } else {
            self == before && create is None
        }
    }

    /// Asks for a controller once the socket of a connection is open, if the client is in
    /// already.
    pub fn socket_opened(&mut self, id: u64) -> (create: Option<ControllerId>)
        requires
            old(self).wf(),
            old(self).conns().contains_key(id),
        ensures
            final(self).wf(),
            old(self).sessions_held() ==> final(self).sessions_held(),
            final(self).socket_up(*old(self), id, create),
            final(self).conns().dom() == old(self).conns().dom(),
    {
        if !self.is_authenticated(id) {
            return None;
        }
        let create = self.gamepad.request_controller();
        let mut connection = self.take_connection(id);
        connection.pending_controller = create;
        self.put_connection(id, connection);
        proof {
            self.lemma_changed(*old(self), id);
        }
        create
    }

    /// The state is `before` after the driver's work on the controller that a connection has
    /// asked for: it is the connection's own where all went well, else it is forgotten.
    pub open spec fn plugged(
        self,
        before: AppState,
        id: u64,
        outcome: DriverOutcome,
        r: Result<(), GamepadError>,
    ) -> bool {
        let m = before.gamepad.inner->0;
        let n = self.gamepad.inner->0;
        let controller = before.conns()[id].pending_controller->0;
        &&& self.gamepad.inner is Some
        &&& n.next_id() == m.next_id()
        &&& n.is_closed() == m.is_closed()
        &&& self.only_connection(before, id)
        &&& self.same_shared((AppState { gamepad: self.gamepad, ..before }))
        &&& match outcome.error() {
            None => {
                &&& r is Ok
                &&& n.controllers() == m.controllers().insert(controller)
                &&& self.conns()[id] == (Connection {
                    controller_id: Some(controller),
                    pending_controller: None,
                    ..before.conns()[id]
                })
            },
            Some(e) => {
                &&& r is Err
                &&& r->Err_0@ == e
                &&& n.controllers() == m.controllers()
                &&& self.conns()[id] == (Connection {
                    pending_controller: None,
                    ..before.conns()[id]
                })
            },
        }
    }

    /// Takes up the controller that a connection has asked for once the driver has plugged it
    /// in; else gives the error.
    pub fn controller_ready(&mut self, id: u64, outcome: &DriverOutcome) -> (r: Result<
        (),
        GamepadError,
    >)
        requires
            old(self).wf(),
            old(self).conns().contains_key(id),
            old(self).conns()[id].pending_controller is Some,
            old(self).gamepad.inner is Some,
        ensures
            final(self).wf(),
            old(self).sessions_held() ==> final(self).sessions_held(),
            final(self).plugged(*old(self), id, *outcome, r),
            final(self).conns().dom() == old(self).conns().dom(),
    {
        let mut connection = self.take_connection(id);
        let controller = connection.pending_controller.unwrap();
        let r = match &mut self.gamepad.inner {
            Some(manager) => manager.controller_ready(controller, outcome),
            None => Err(GamepadError::Shutdown),
        };
        connection.pending_controller = None;
        if r.is_ok() {
            connection.controller_id = Some(controller);
        }
        self.put_connection(id, connection);
        proof {
            self.lemma_changed(*old(self), id);
        }
        r
    }

    /// The state is `before` after a client was greeted.
    pub open spec fn greeted(self, before: AppState, id: u64, now: u128) -> bool {
        &&& self.only_connection(before, id)
        &&& self.conns()[id] == (Connection {
            last_gamepad_update: now,
            last_heartbeat: now,
            ..before.conns()[id]
        })
        &&& self.same_shared(before)
    }

    /// What a client hears first; from then on the times between updates of its pad and between
    /// its heartbeats count.
    pub fn greeting(&mut self, id: u64, now: u128) -> (messages: Vec<ServerMessage>)
        requires
            old(self).wf(),
            old(self).conns().contains_key(id),
        ensures
            final(self).wf(),
            old(self).sessions_held() ==> final(self).sessions_held(),
            final(self).greeted(*old(self), id, now),
            messages@.map_values(|m: ServerMessage| m@) == if old(self).conns()[id].authenticated {
                seq![
                    ServerMessageView::Connected { controller_name: CONTROLLER_NAME@ },
                    ServerMessageView::AuthSuccess { token: Seq::<char>::empty() },
                ]
            } else {
                seq![ServerMessageView::Connected { controller_name: CONTROLLER_NAME@ }]
            },
            messages@.len() == if old(self).conns()[id].authenticated {
                2int
            } else {
                1
            },
            messages@[0] is Connected,
            messages@[0]->controller_name@ == "WebPad Virtual Controller"@,
            old(self).conns()[id].authenticated ==> messages@[1] is AuthSuccess
                && messages@[1]->token@.len() == 0,
    {
        let mut connection = self.take_connection(id);
        let authenticated = connection.authenticated;
        connection.last_gamepad_update = now;
        connection.last_heartbeat = now;
        self.put_connection(id, connection);
        proof {
            self.lemma_changed(*old(self), id);
        }
        let mut messages: Vec<ServerMessage> = Vec::new();
        messages.push(ServerMessage::Connected { controller_name: CONTROLLER_NAME.to_owned() });
        if authenticated {
            let token = String::new();
            assert(token@ =~= Seq::<char>::empty());
            messages.push(ServerMessage::AuthSuccess { token });
            assert(messages@.map_values(|m: ServerMessage| m@) =~= seq![
                ServerMessageView::Connected { controller_name: CONTROLLER_NAME@ },
                ServerMessageView::AuthSuccess { token: Seq::<char>::empty() },
            ]);
        } else {
            assert(messages@.map_values(|m: ServerMessage| m@) =~= seq![
                ServerMessageView::Connected { controller_name: CONTROLLER_NAME@ },
            ]);
        }
        messages
    }

    /// The state is `before` without a connection: its session, its controller and its
    /// permits are given up with it.
    pub open spec fn closed(self, before: AppState, id: u64, unplug: Option<ControllerId>) -> bool {
        let c = before.conns()[id];
        &&& self.conns() == before.conns().remove(id)
        &&& self.auth.hash() == before.auth.hash()
        &&& self.auth.sessions() == match c.token() {
            Some(token) => before.auth.sessions().remove(token),
            None => before.auth.sessions(),
        }
        &&& self.connection_limiter.moved(
            before.connection_limiter,
            -1,
            if c.authenticated {
                0
            } else {
                -1
            },
        )
        &&& match c.controller_id {
            Some(controller) => {
                &&& self.gamepad.gave_up(before.gamepad, controller)
                &&& unplug == if before.gamepad.inner is Some
                    && before.gamepad.inner->0.controllers().contains(controller) {
                    Some(controller)
                } else {
                    None
                }
            },
            None => self.gamepad == before.gamepad && unplug is None,
        }
        &&& self.upnp == before.upnp
        &&& self.config == before.config
        &&& self.ip_backoff == before.ip_backoff
    }

    /// Cleans up behind a connection that is over, and returns the controller that the driver
    /// is to unplug, if there is one.
    pub fn close_connection(&mut self, id: u64) -> (unplug: Option<ControllerId>)
        requires
            old(self).wf(),
            old(self).conns().contains_key(id),
        ensures
            final(self).wf(),
            old(self).sessions_held() ==> final(self).sessions_held(),
            final(self).closed(*old(self), id, unplug),
    {
        let connection = self.take_connection(id);
        proof {
            super::server::lemma_waiting_remove(old(self).conns(), id);
            assert(super::server::waiting(old(self).conns()).contains(id)
                <==> !connection.authenticated);
        }
        let unplug = match connection.controller_id {
            Some(controller) => if self.gamepad.destroy_controller(controller) {
                Some(controller)
            } else {
                None
            },
            None => None,
        };
        if let Some(token) = &connection.session_token {
            self.auth.remove_session(token.as_str());
        }
        self.connection_limiter.release_total(connection.total_permit);
        if let Some(permit) = connection.unauth_permit {
            self.connection_limiter.release_unauth(permit);
        }
        proof {
            self.lemma_still_held(*old(self), id);
        }
        unplug
    }
}

} // verus!
