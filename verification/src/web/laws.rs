//! What holds of the server over several calls and in every state.

use vstd::prelude::*;

use super::handler::{Connection, Reaction, SocketEvent, WsQuery};
use super::server::{AppState, StatusCode};
use crate::gamepad::manager::{DriverOutcome, GamepadError};
use crate::gamepad::ControllerId;
use crate::net::IpAddr;
use crate::protocol::ClientMessage;

verus! {

/// There are never more connections than the settings allow, nor more that have not
/// authenticated.
pub proof fn lemma_limits_hold(state: AppState)
    requires
        state.wf(),
    ensures
        state.conns().len() <= state.connection_limiter.capacity(),
        super::server::waiting(state.conns()).len() <= state.connection_limiter.unauth_capacity(),
        state.conns().dom().filter(|id: u64| !state.conns()[id].authenticated).len()
            <= state.connection_limiter.unauth_capacity(),
{
    assert(state.conns().dom().filter(|id: u64| !state.conns()[id].authenticated)
        =~= super::server::waiting(state.conns()));
}

/// The tokens that some connections hold are at most as many as the connections.
proof fn lemma_tokens_bounded(m: Map<u64, Connection>, tokens: Set<Seq<char>>)
    requires
        m.dom().finite(),
        super::server::all_held(m, tokens),
    ensures
        tokens.finite(),
        tokens.len() <= m.len(),
    decreases m.len(),
{
    if m.dom().len() == 0 {
        assert forall|t: Seq<char>| !tokens.contains(t) by {
            if tokens.contains(t) {
                assert(super::server::held(m, t));
                let k = choose|k: u64|
                    m.contains_key(k) && (#[trigger] m[k]).token() == Some(t);
                assert(m.dom().contains(k));
            }
        }
        assert(tokens =~= Set::<Seq<char>>::empty());
    } else {
        let id = m.dom().choose();
        let smaller = m.remove(id);
        let rest = match m[id].token() {
            Some(t) => tokens.remove(t),
            None => tokens,
        };
        assert forall|t: Seq<char>| #[trigger] rest.contains(t) implies super::server::held(
            smaller,
            t,
        ) by {
            assert(tokens.contains(t));
            let k = choose|k: u64| m.contains_key(k) && (#[trigger] m[k]).token() == Some(t);
            assert(k != id);
            assert(smaller.contains_key(k) && smaller[k].token() == Some(t));
        }
        lemma_tokens_bounded(smaller, rest);
        if m[id].token() is Some && tokens.contains(m[id].token()->0) {
            assert(tokens =~= rest.insert(m[id].token()->0));
        } else {
            assert(tokens =~= rest);
        }
    }
}

/// There are never more sessions than connections, where connections alone open them: what is
/// left of a connection does not pile up.
pub proof fn lemma_sessions_bounded(state: AppState)
    requires
        state.wf(),
        state.sessions_held(),
    ensures
        state.auth.sessions().finite(),
        state.auth.sessions().len() <= state.conns().len(),
        state.auth.sessions().len() <= state.connection_limiter.capacity(),
{
    lemma_tokens_bounded(state.conns(), state.auth.sessions());
}

/// A refusal depends on the token of a query only by whether a session is open under it: a
/// made-up token counts as none.
pub proof fn lemma_invalid_token_is_none(
    state: AppState,
    ip: IpAddr,
    query: WsQuery,
    none: WsQuery,
    origin: Option<Seq<u8>>,
    host: Option<Seq<u8>>,
)
    requires
        !state.token_valid(query),
        none.token is None,
    ensures
        state.refusal(ip, query, origin, host) == state.refusal(ip, none, origin, host),
{
}

/// The token that a client is given lets it in again, whatever its address has done, and
/// though all permits for connections that have not authenticated are in use.
pub proof fn lemma_token_lets_in(
    before: AppState,
    after: AppState,
    id: u64,
    r: Reaction,
    ip: IpAddr,
    query: WsQuery,
    origin: Option<Seq<u8>>,
    host: Option<Seq<u8>>,
)
    requires
        after.admitted(before, id, r),
        query.token is Some,
        query.token->0@ == r->Admit_reply->token@,
        super::origin::admissible(origin, host),
    ensures
        after.token_valid(query),
        after.refusal(ip, query, origin, host) == if after.connection_limiter.in_use()
            < after.connection_limiter.capacity() {
            None
        } else {
            Some(StatusCode::ServiceUnavailable)
        },
{
}

/// An address that has failed too often gets no new connection without a valid token.
pub proof fn lemma_cut_off_is_refused(
    state: AppState,
    ip: IpAddr,
    query: WsQuery,
    origin: Option<Seq<u8>>,
    host: Option<Seq<u8>>,
)
    requires
        state.ip_backoff.cut_off(ip),
        !state.token_valid(query),
    ensures
        state.refusal(ip, query, origin, host) == Some(StatusCode::Forbidden),
{
}

/// A connection that is closed again leaves everything as it was, but for the session that it
/// was let in by.
pub proof fn lemma_close_undoes_open(
    before: AppState,
    during: AppState,
    after: AppState,
    id: u64,
    ip: IpAddr,
    query: WsQuery,
    unplug: Option<u32>,
)
    requires
        during.opened(before, id, ip, query),
        after.closed(during, id, unplug),
    ensures
        after.conns() == before.conns(),
        after.connection_limiter == before.connection_limiter,
        after.ip_backoff == before.ip_backoff,
        after.gamepad == before.gamepad,
        unplug is None,
        after.auth.sessions() == if before.token_valid(query) {
            before.auth.sessions().remove(query.token->0@)
        } else {
            before.auth.sessions()
        },
{
    assert(after.conns() =~= before.conns());
    super::server::lemma_unmoved(before.connection_limiter, after.connection_limiter);
}

/// When a connection is closed, its session is closed and its permits are free again.
pub proof fn lemma_close_releases(before: AppState, after: AppState, id: u64, unplug: Option<u32>)
    requires
        before.wf(),
        before.conns().contains_key(id),
        after.closed(before, id, unplug),
    ensures
        before.conns()[id].token() matches Some(t) ==> !after.auth.sessions().contains(t),
        after.connection_limiter.in_use() < after.connection_limiter.capacity(),
        !before.conns()[id].authenticated ==> after.connection_limiter.unauth_in_use()
            < after.connection_limiter.unauth_capacity(),
        before.conns()[id].controller_id matches Some(c) ==> (after.gamepad.inner matches Some(
            m,
        ) ==> !m.controllers().contains(c)),
{
    let waiting = super::server::waiting(before.conns());
    assert(waiting.contains(id) <==> !before.conns()[id].authenticated);
    assert(before.conns().dom().len() > 0);
    assert(waiting.finite());
}

/// An event on one connection leaves all others as they are.
pub proof fn lemma_step_is_personal(
    before: AppState,
    after: AppState,
    id: u64,
    event: SocketEvent,
    now: u128,
    r: Reaction,
    other: u64,
)
    requires
        before.conns().contains_key(id),
        after.step(before, id, event, now, r),
        other != id,
    ensures
        after.conns().contains_key(other) <==> before.conns().contains_key(other),
        before.conns().contains_key(other) ==> after.conns()[other] == before.conns()[other],
{
}

/// A client is let in by the right password alone, while its address has not to wait.
pub proof fn lemma_let_in_by_password(
    before: AppState,
    after: AppState,
    id: u64,
    event: SocketEvent,
    now: u128,
    r: Reaction,
)
    requires
        before.conns().contains_key(id),
        after.step(before, id, event, now, r),
        !before.conns()[id].authenticated,
        after.conns()[id].authenticated,
    ensures
        event matches SocketEvent::Message(ClientMessage::AuthRequest { password })
            && crate::password::accepts(password@, before.auth.hash()),
        crate::auth::remaining(before.ip_backoff.entry(before.conns()[id].ip), now) is None,
{
}

/// Without a stored hash no event lets a client in.
pub proof fn lemma_fail_closed(
    before: AppState,
    after: AppState,
    id: u64,
    event: SocketEvent,
    now: u128,
    r: Reaction,
)
    requires
        before.conns().contains_key(id),
        after.step(before, id, event, now, r),
        before.auth.hash().len() == 0,
        !before.conns()[id].authenticated,
    ensures
        !after.conns()[id].authenticated,
        !(r is Admit),
{
}

/// While an address has to wait, no password is looked at on any of its connections: all of
/// them lead to the same.
pub proof fn lemma_no_guess_while_waiting(
    before: AppState,
    after: AppState,
    id: u64,
    password: Seq<char>,
    now: u128,
    r: Reaction,
)
    requires
        after.auth_step(before, id, password, now, r),
        crate::auth::remaining(before.ip_backoff.entry(before.conns()[id].ip), now) is Some,
    ensures
        after == before,
        r == (Reaction::PutOff {
            nanos: crate::auth::remaining(
                before.ip_backoff.entry(before.conns()[id].ip),
                now,
            )->0,
        }),
{
}

/// A wrong password makes the address wait, over all its connections, for as long as the client
/// is told.
pub proof fn lemma_wrong_password_makes_wait(
    before: AppState,
    after: AppState,
    id: u64,
    now: u128,
    r: Reaction,
    later: u128,
)
    requires
        after.refused(before, id, now, r),
        r is Refuse,
        now <= crate::clock::MAX_READING,
        now <= later,
    ensures
        crate::auth::remaining(after.ip_backoff.entry(before.conns()[id].ip), later) is Some
            <==> later < now + r->wait_ms * crate::clock::NANOS_PER_MILLI,
{
    crate::auth::lemma_failure_makes_wait(
        before.ip_backoff,
        after.ip_backoff,
        before.conns()[id].ip,
        now,
        later,
    );
}

/// A connection stays open only while it has failed less often than the settings allow, and so
/// has its address: while attempts are left.
pub proof fn lemma_failures_end_connection(
    before: AppState,
    after: AppState,
    id: u64,
    now: u128,
    r: Reaction,
)
    requires
        after.refused(before, id, now, r),
    ensures
        r.ends() <==> (after.conns()[id].auth_failures >= before.config.max_auth_failures
            || after.ip_backoff.cut_off(before.conns()[id].ip)),
        r.ends() <==> after.attempts_left(id) == 0,
        before.conns()[id].auth_failures < u32::MAX ==> after.conns()[id].auth_failures
            == before.conns()[id].auth_failures + 1,
{
}

/// Only a client that is in moves a pad or hears an answer to its signs of life.
pub proof fn lemma_outsiders_do_nothing(
    before: AppState,
    after: AppState,
    id: u64,
    event: SocketEvent,
    now: u128,
    r: Reaction,
)
    requires
        before.conns().contains_key(id),
        after.step(before, id, event, now, r),
        !before.conns()[id].authenticated,
        event is Message,
    ensures
        !(r is Update),
        !(r is Send),
{
}

/// What a report says is what the client sent.
pub proof fn lemma_report_is_what_was_sent(
    before: AppState,
    after: AppState,
    id: u64,
    event: SocketEvent,
    now: u128,
    r: Reaction,
)
    requires
        before.conns().contains_key(id),
        after.step(before, id, event, now, r),
        r is Update,
    ensures
        event is Message,
        crate::gamepad::types::carried(event->Message_0) is Some,
        r->report == crate::gamepad::manager::report(
            crate::gamepad::types::carried(event->Message_0)->0,
        ),
        before.conns()[id].controller_id == Some(r->controller),
{
}

/// A client that is in stays in for as long as its connection lasts.
pub proof fn lemma_stays_in(
    before: AppState,
    after: AppState,
    id: u64,
    event: SocketEvent,
    now: u128,
    r: Reaction,
)
    requires
        before.conns().contains_key(id),
        after.step(before, id, event, now, r),
        before.conns()[id].authenticated,
    ensures
        after.conns().contains_key(id),
        after.conns()[id].authenticated,
{
}

/// Events neither take nor give up the place of a connection, and free the place of one that
/// has not authenticated only by letting it in.
pub proof fn lemma_events_keep_places(
    before: AppState,
    after: AppState,
    id: u64,
    event: SocketEvent,
    now: u128,
    r: Reaction,
)
    requires
        before.conns().contains_key(id),
        after.step(before, id, event, now, r),
    ensures
        after.connection_limiter.moved(
            before.connection_limiter,
            0,
            if r is Admit && !before.conns()[id].authenticated {
                -1
            } else {
                0
            },
        ),
{
}

/// An event on a connection, and what it led to.
pub struct Happening {
    pub id: u64,
    pub event: SocketEvent,
    pub now: u128,
    pub reaction: Reaction,
}

/// The event at a place of a log led from the state at that place to the next.
pub open spec fn took(states: Seq<AppState>, log: Seq<Happening>, k: int) -> bool {
    &&& states[k].conns().contains_key(log[k].id)
    &&& states[k + 1].step(states[k], log[k].id, log[k].event, log[k].now, log[k].reaction)
}

/// The events of a log led from each state to the next.
pub open spec fn run(states: Seq<AppState>, log: Seq<Happening>) -> bool {
    &&& states.len() == log.len() + 1
    &&& forall|k: int| 0 <= k < log.len() ==> #[trigger] took(states, log, k)
}

/// How many of the first `n` events of a log had a connection refused.
pub open spec fn refusals(log: Seq<Happening>, id: u64, n: nat) -> nat
    decreases n,
{
    if n == 0 {
        0
    } else {
        refusals(log, id, (n - 1) as nat) + if log[n - 1].id == id && log[n - 1].reaction
            is Refuse {
            1nat
        } else {
            0
        }
    }
}

/// After a report, the time of a connection's last update does not go back behind it.
proof fn lemma_last_update_stays(
    states: Seq<AppState>,
    log: Seq<Happening>,
    id: u64,
    i: int,
    j: int,
)
    requires
        run(states, log),
        0 <= i < j <= log.len(),
        log[i].id == id,
        log[i].reaction is Update,
    ensures
        states[j].conns().contains_key(id),
        states[j].conns()[id].last_gamepad_update >= log[i].now,
    decreases j,
{
    assert(took(states, log, j - 1));
    if i < j - 1 {
        lemma_last_update_stays(states, log, id, i, j - 1);
    }
}

/// Between two reports to the controller of a connection lies the shortest time at least,
/// whatever events come on this and other connections in between.
pub proof fn lemma_updates_apart(
    states: Seq<AppState>,
    log: Seq<Happening>,
    id: u64,
    i: int,
    j: int,
)
    requires
        run(states, log),
        0 <= i < j < log.len(),
        log[i].id == id,
        log[j].id == id,
        log[i].reaction is Update,
        log[j].reaction is Update,
    ensures
        log[j].now - log[i].now >= super::handler::GAMEPAD_MIN_INTERVAL,
{
    lemma_last_update_stays(states, log, id, i, j);
    assert(took(states, log, j));
}

/// A connection counts each of its failures, and so it is refused less often than the settings
/// allow failures: the one that reaches their number ends it.
pub proof fn lemma_refusals_bounded(states: Seq<AppState>, log: Seq<Happening>, id: u64, n: nat)
    requires
        run(states, log),
        n <= log.len(),
        states[0].conns().contains_key(id),
    ensures
        states[n as int].conns().contains_key(id),
        states[n as int].config == states[0].config,
        refusals(log, id, n) <= states[n as int].conns()[id].auth_failures,
        refusals(log, id, n) > 0 ==> refusals(log, id, n) < states[0].config.max_auth_failures,
    decreases n,
{
    if n > 0 {
        let k = n - 1;
        lemma_refusals_bounded(states, log, id, k as nat);
        assert(took(states, log, k));
    }
}

/// Whoever gets in has given a password that the stored hash accepts.
pub proof fn lemma_let_in_over_a_run(
    states: Seq<AppState>,
    log: Seq<Happening>,
    id: u64,
    n: nat,
) -> (k: int)
    requires
        run(states, log),
        n <= log.len(),
        states[0].conns().contains_key(id),
        !states[0].conns()[id].authenticated,
        states[n as int].conns()[id].authenticated,
    ensures
        0 <= k < n,
        log[k].id == id,
        log[k].event matches SocketEvent::Message(ClientMessage::AuthRequest { password })
            && crate::password::accepts(password@, states[0].auth.hash()),
    decreases n,
{
    let k = n - 1;
    assert(took(states, log, k));
    lemma_hash_stays(states, log, id, k as nat);
    if states[k].conns()[id].authenticated {
        lemma_let_in_over_a_run(states, log, id, k as nat)
    } else {
        k
    }
}

/// No event changes the stored hash or ends a connection by itself.
proof fn lemma_hash_stays(states: Seq<AppState>, log: Seq<Happening>, id: u64, n: nat)
    requires
        run(states, log),
        n <= log.len(),
        states[0].conns().contains_key(id),
    ensures
        states[n as int].conns().contains_key(id),
        states[n as int].auth.hash() == states[0].auth.hash(),
    decreases n,
{
    if n > 0 {
        let k = n - 1;
        lemma_hash_stays(states, log, id, k as nat);
        assert(took(states, log, k));
    }
}

/// Without a stored hash nobody gets in, whatever events come.
pub proof fn lemma_nobody_gets_in(states: Seq<AppState>, log: Seq<Happening>, id: u64, n: nat)
    requires
        run(states, log),
        n <= log.len(),
        states[0].conns().contains_key(id),
        !states[0].conns()[id].authenticated,
        states[0].auth.hash().len() == 0,
    ensures
        !states[n as int].conns()[id].authenticated,
{
    if states[n as int].conns()[id].authenticated {
        let k = lemma_let_in_over_a_run(states, log, id, n);
    }
}

/// Whether an event is a heartbeat.
pub open spec fn is_heartbeat(event: SocketEvent) -> bool {
    event matches SocketEvent::Message(ClientMessage::Heartbeat)
}

/// A heartbeat gives a connection the whole time again.
pub proof fn lemma_heartbeat_resets(
    before: AppState,
    after: AppState,
    id: u64,
    event: SocketEvent,
    now: u128,
    r: Reaction,
)
    requires
        after.step(before, id, event, now, r),
        is_heartbeat(event),
    ensures
        after.heartbeat_remaining(id, now) == Some(
            (after.config.heartbeat_secs() * crate::clock::NANOS_PER_SEC) as u128,
        ),
{
}

/// Nothing but a heartbeat gives a connection more time, whatever else comes on this and other
/// connections.
pub proof fn lemma_only_heartbeats_count(
    states: Seq<AppState>,
    log: Seq<Happening>,
    id: u64,
    n: nat,
    now: u128,
)
    requires
        run(states, log),
        n <= log.len(),
        states[0].conns().contains_key(id),
        forall|k: int|
            0 <= k < n && (#[trigger] log[k]).id == id ==> !is_heartbeat(log[k].event),
    ensures
        states[n as int].conns().contains_key(id),
        states[n as int].conns()[id].last_heartbeat == states[0].conns()[id].last_heartbeat,
        states[n as int].config == states[0].config,
        states[n as int].heartbeat_remaining(id, now) == states[0].heartbeat_remaining(id, now),
    decreases n,
{
    if n > 0 {
        let k = n - 1;
        lemma_only_heartbeats_count(states, log, id, k as nat, now);
        assert(took(states, log, k));
        assert(log[k].id == id ==> !is_heartbeat(log[k].event));
    }
}

/// A connection without a heartbeat for the whole time is closed when the time is looked at,
/// though other messages came on it. Before that it is not.
pub proof fn lemma_silence_closes(
    states: Seq<AppState>,
    log: Seq<Happening>,
    id: u64,
    n: nat,
)
    requires
        run(states, log),
        n < log.len(),
        states[0].conns().contains_key(id),
        forall|k: int|
            0 <= k < n && (#[trigger] log[k]).id == id ==> !is_heartbeat(log[k].event),
        log[n as int].id == id,
        log[n as int].event is HeartbeatTimeout,
    ensures
        log[n as int].reaction is Close <==> log[n as int].now
            - states[0].conns()[id].last_heartbeat >= states[0].config.heartbeat_secs()
            * crate::clock::NANOS_PER_SEC,
{
    lemma_only_heartbeats_count(states, log, id, n, log[n as int].now);
    assert(took(states, log, n as int));
}

/// Anything that is done to the state, with what came of it.
pub enum Operation {
    Upgrade { id: u64, ip: IpAddr, query: WsQuery },
    SocketOpened { id: u64, create: Option<ControllerId> },
    ControllerReady { id: u64, outcome: DriverOutcome, result: Result<(), GamepadError> },
    Greeting { id: u64, now: u128 },
    Event(Happening),
    Close { id: u64, unplug: Option<ControllerId> },
}

/// An operation led from one state to another.
pub open spec fn did(before: AppState, op: Operation, after: AppState) -> bool {
    match op {
        Operation::Upgrade { id, ip, query } => after.opened(before, id, ip, query),
        Operation::SocketOpened { id, create } => {
            &&& before.conns().contains_key(id)
            &&& after.socket_up(before, id, create)
        },
        Operation::ControllerReady { id, outcome, result } => {
            &&& before.conns().contains_key(id)
            &&& before.conns()[id].pending_controller is Some
            &&& before.gamepad.inner is Some
            &&& after.plugged(before, id, outcome, result)
        },
        Operation::Greeting { id, now } => {
            &&& before.conns().contains_key(id)
            &&& after.greeted(before, id, now)
        },
        Operation::Event(h) => {
            &&& before.conns().contains_key(h.id)
            &&& after.step(before, h.id, h.event, h.now, h.reaction)
        },
        Operation::Close { id, unplug } => {
            &&& before.conns().contains_key(id)
            &&& after.closed(before, id, unplug)
        },
    }
}

/// The operation at a place of a history led from the state at that place to the next.
pub open spec fn done(states: Seq<AppState>, ops: Seq<Operation>, k: int) -> bool {
    did(states[k], ops[k], states[k + 1])
}

/// Operations led from each state to the next.
pub open spec fn history(states: Seq<AppState>, ops: Seq<Operation>) -> bool {
    &&& states.len() == ops.len() + 1
    &&& forall|k: int| 0 <= k < ops.len() ==> #[trigger] done(states, ops, k)
}

/// No two connections have the same controller, be it plugged in or to be.
pub open spec fn none_shared(state: AppState) -> bool {
    forall|a: u64, b: u64, c: ControllerId|
        a != b && state.conns().contains_key(a) && state.conns().contains_key(b)
            && #[trigger] state.conns()[a].owns(c) ==> !#[trigger] state.conns()[b].owns(c)
}

/// The count of controllers has not run over the numbers that there are.
pub open spec fn numbers_last(state: AppState) -> bool {
    state.gamepad.inner is Some ==> 1 <= state.gamepad.inner->0.next_id() <= u32::MAX
}

/// No controller is shared, and every one has a number below the count.
pub open spec fn controllers_apart(state: AppState) -> bool {
    &&& none_shared(state)
    &&& numbers_last(state)
    &&& state.gamepad.inner is Some ==> state.gamepad.inner->0.numbered()
    &&& forall|a: u64, c: ControllerId|
        state.conns().contains_key(a) && #[trigger] state.conns()[a].owns(c)
            ==> state.gamepad.inner is Some && c < state.gamepad.inner->0.next_id()
}

/// A server without connections shares no controller.
pub proof fn lemma_controllers_apart_at_first(state: AppState)
    requires
        state.conns() == Map::<u64, Connection>::empty(),
        state.gamepad.inner is Some ==> state.gamepad.inner->0.numbered()
            && state.gamepad.inner->0.next_id() >= 1,
    ensures
        controllers_apart(state),
{
}

/// A connection that comes to own nothing but what it owned, or the number of the count, shares
/// nothing.
proof fn lemma_operation_keeps_apart(before: AppState, op: Operation, after: AppState)
    requires
        controllers_apart(before),
        did(before, op, after),
    ensures
        none_shared(after),
        numbers_last(after) ==> controllers_apart(after),
{
    assert forall|a: u64, c: ControllerId|
        after.conns().contains_key(a) && #[trigger] after.conns()[a].owns(c) implies ({
        ||| before.conns().contains_key(a) && before.conns()[a].owns(c)
        ||| before.gamepad.inner is Some && c == before.gamepad.inner->0.next_id()
            && after.gamepad.inner is Some && after.gamepad.inner->0.next_id()
            != before.gamepad.inner->0.next_id()
    }) by {}
    assert(before.gamepad.inner is Some <==> after.gamepad.inner is Some);
    assert forall|a: u64, b: u64, c: ControllerId|
        a != b && after.conns().contains_key(a) && after.conns().contains_key(b)
            && #[trigger] after.conns()[a].owns(c) implies !#[trigger] after.conns()[b].owns(c) by {
        if after.conns()[b].owns(c) {
            assert(before.conns().contains_key(a) && before.conns()[a].owns(c) ==> c
                < before.gamepad.inner->0.next_id());
            assert(before.conns().contains_key(b) && before.conns()[b].owns(c) ==> c
                < before.gamepad.inner->0.next_id());
        }
    }
    if numbers_last(after) && after.gamepad.inner is Some {
        if let Operation::ControllerReady { id, .. } = op {
            assert(before.conns()[id].owns(before.conns()[id].pending_controller->0));
        }
        let m = before.gamepad.inner->0;
        let n = after.gamepad.inner->0;
        assert(before.gamepad.inner is Some && m.next_id() <= n.next_id());
        assert forall|c: ControllerId| #[trigger] n.controllers().contains(c) implies c
            < n.next_id() by {
            assert(m.controllers().contains(c) || op is ControllerReady);
        }
        assert forall|a: u64, c: ControllerId|
            after.conns().contains_key(a) && #[trigger] after.conns()[a].owns(c) implies c
            < n.next_id() by {
            if before.conns().contains_key(a) && before.conns()[a].owns(c) {
                assert(c < m.next_id());
            }
        }
    }
}

/// No two connections ever have the same controller, whatever is done, as long as the count of
/// controllers has not run over the numbers that there are.
pub proof fn lemma_controllers_apart(states: Seq<AppState>, ops: Seq<Operation>, n: nat)
    requires
        history(states, ops),
        n <= ops.len(),
        controllers_apart(states[0]),
        forall|k: int| 0 <= k < n ==> numbers_last(#[trigger] states[k]),
    ensures
        none_shared(states[n as int]),
        numbers_last(states[n as int]) ==> controllers_apart(states[n as int]),
    decreases n,
{
    if n > 0 {
        let k = n - 1;
        lemma_controllers_apart(states, ops, k as nat);
        assert(numbers_last(states[k]));
        assert(done(states, ops, k));
        lemma_operation_keeps_apart(states[k], ops[k], states[n as int]);
    }
}

/// A client that is in, whose last update lies far enough back and whose controller is plugged in
/// at an open manager, moves its pad: whatever state it sends, the one at rest included, goes to
/// its controller field by field.
pub proof fn lemma_pad_state_is_reported(
    before: AppState,
    after: AppState,
    id: u64,
    now: u128,
    r: Reaction,
    buttons: u16,
    left_trigger: u8,
    right_trigger: u8,
    thumb_lx: i16,
    thumb_ly: i16,
    thumb_rx: i16,
    thumb_ry: i16,
)
    requires
        before.conns().contains_key(id),
        after.step(
            before,
            id,
            SocketEvent::Message(
                ClientMessage::GamepadState {
                    buttons,
                    left_trigger,
                    right_trigger,
                    thumb_lx,
                    thumb_ly,
                    thumb_rx,
                    thumb_ry,
                },
            ),
            now,
            r,
        ),
        before.conns()[id].authenticated,
        now >= before.conns()[id].last_gamepad_update + 8_000_000,
        before.conns()[id].controller_id is Some,
        before.gamepad.inner is Some,
        !before.gamepad.inner->0.is_closed(),
        before.gamepad.inner->0.controllers().contains(before.conns()[id].controller_id->0),
    ensures
        r is Update,
        r->controller == before.conns()[id].controller_id->0,
        r->report.buttons == buttons,
        r->report.left_trigger == left_trigger,
        r->report.right_trigger == right_trigger,
        r->report.thumb_lx == thumb_lx,
        r->report.thumb_ly == thumb_ly,
        r->report.thumb_rx == thumb_rx,
        r->report.thumb_ry == thumb_ry,
        after.conns()[id].last_gamepad_update == now,
{
}

/// A state of the pad leads to nothing from a client that is not in, and from one that is too
/// quick. From one without a controller that is plugged in at an open manager it leads to nothing
/// either, though its time counts.
pub proof fn lemma_pad_state_is_ignored(
    before: AppState,
    after: AppState,
    id: u64,
    message: ClientMessage,
    now: u128,
    r: Reaction,
)
    requires
        before.conns().contains_key(id),
        message is GamepadState,
        after.step(before, id, SocketEvent::Message(message), now, r),
    ensures
        !before.conns()[id].authenticated || now < before.conns()[id].last_gamepad_update
            + 8_000_000 ==> r is Nothing && after == before,
        before.conns()[id].controller_id is None || before.gamepad.inner is None ==> r is Nothing,
        before.gamepad.inner matches Some(m) ==> before.conns()[id].controller_id matches Some(
            c,
        ) ==> m.is_closed() || !m.controllers().contains(c) ==> r is Nothing,
        before.conns()[id].authenticated && now >= before.conns()[id].last_gamepad_update
            + 8_000_000 ==> after.conns()[id].last_gamepad_update == now,
        after.conns()[id].last_heartbeat == before.conns()[id].last_heartbeat,
        after.conns()[id].auth_failures == before.conns()[id].auth_failures,
        after.conns()[id].authenticated == before.conns()[id].authenticated,
        after.conns()[id].session_token == before.conns()[id].session_token,
        after.conns()[id].controller_id == before.conns()[id].controller_id,
        after.conns()[id].pending_controller == before.conns()[id].pending_controller,
        after.conns()[id].ip == before.conns()[id].ip,
        after.auth == before.auth && after.gamepad == before.gamepad && after.ip_backoff
            == before.ip_backoff && after.connection_limiter == before.connection_limiter,
{
}

/// A heartbeat is answered where the client is in, and in any case its time counts; nothing else
/// changes.
pub proof fn lemma_heartbeat_is_answered(
    before: AppState,
    after: AppState,
    id: u64,
    now: u128,
    r: Reaction,
)
    requires
        before.conns().contains_key(id),
        after.step(before, id, SocketEvent::Message(ClientMessage::Heartbeat), now, r),
    ensures
        before.conns()[id].authenticated ==> r is Send && r->Send_0 is Pong,
        !before.conns()[id].authenticated ==> r is Nothing,
        after.conns()[id].last_heartbeat == now,
        after.conns()[id].last_gamepad_update == before.conns()[id].last_gamepad_update,
        after.conns()[id].auth_failures == before.conns()[id].auth_failures,
        after.conns()[id].authenticated == before.conns()[id].authenticated,
        after.conns()[id].session_token == before.conns()[id].session_token,
        after.conns()[id].controller_id == before.conns()[id].controller_id,
        after.conns()[id].pending_controller == before.conns()[id].pending_controller,
        after.conns()[id].ip == before.conns()[id].ip,
        after.auth == before.auth && after.gamepad == before.gamepad && after.ip_backoff
            == before.ip_backoff && after.connection_limiter == before.connection_limiter,
{
}

/// What is neither a password, a state of the pad nor a heartbeat changes nothing. Leave taken, a
/// close, a break and the end of all frames end the connection, and so does a heartbeat that is
/// overdue; the driver's wishes are handed on, the large motor as the left one; the rest is passed
/// over.
pub proof fn lemma_other_events(
    before: AppState,
    after: AppState,
    id: u64,
    event: SocketEvent,
    now: u128,
    r: Reaction,
)
    requires
        before.conns().contains_key(id),
        after.step(before, id, event, now, r),
        event matches SocketEvent::Message(message) ==> message is Disconnect,
    ensures
        after == before,
        event is Message || event is Closed || event is Failed || event is Ended ==> r is End,
        event is Malformed || event is OtherFrame ==> r is Nothing,
        event is RumbleEnded ==> r is StopRumble,
        event matches SocketEvent::Rumble(rumble) ==> {
            &&& r is Send
            &&& r->Send_0 is Rumble
            &&& r->Send_0->Rumble_left_motor == rumble.large_motor
            &&& r->Send_0->Rumble_right_motor == rumble.small_motor
        },
        event is HeartbeatTimeout ==> (r is Close || r is Nothing) && (r is Close <==> now
            >= before.conns()[id].last_heartbeat + 1_000_000_000
            * if before.config.heartbeat_timeout_secs >= 5 {
            before.config.heartbeat_timeout_secs as int
        } else {
            5
        }),
{
}

/// The time that is left for a heartbeat is the settings' timeout, five seconds at least, less
/// the time since the last one.
pub proof fn lemma_heartbeat_time_left(state: AppState, id: u64, now: u128)
    requires
        state.conns()[id].last_heartbeat <= now,
    ensures
        ({
            let secs = if state.config.heartbeat_timeout_secs >= 5 {
                state.config.heartbeat_timeout_secs as int
            } else {
                5
            };
            let over = state.conns()[id].last_heartbeat + 1_000_000_000 * secs;
            if now < over {
                state.heartbeat_remaining(id, now) == Some((over - now) as u128)
            } else {
                state.heartbeat_remaining(id, now) is None
            }
        }),
{
}

/// The attempts that a connection has left are at most those to its own limit and those to the
/// limit of its address, and as many as the fewer of them.
pub proof fn lemma_attempts_left(state: AppState, id: u64)
    requires
        state.conns()[id].auth_failures <= state.config.max_auth_failures,
        state.ip_backoff.entry(state.conns()[id].ip) matches Some(s) ==> s.failures
            <= state.ip_backoff.max_failures(),
    ensures
        ({
            let own = state.config.max_auth_failures - state.conns()[id].auth_failures;
            let shared = state.ip_backoff.max_failures() - (match state.ip_backoff.entry(
                state.conns()[id].ip,
            ) {
                Some(s) => s.failures as int,
                None => 0,
            });
            &&& state.attempts_left(id) <= own
            &&& state.attempts_left(id) <= shared
            &&& state.attempts_left(id) == own || state.attempts_left(id) == shared
        }),
{
}

/// The right password, given while the address has not to wait, lets a client in: it hears a fresh
/// token, under which alone it has a session from then on. The failures of its address are
/// forgotten, and of no other. If it was not in before, it frees the place of one that is not, and
/// the next controller is asked for where there is an open manager.
pub proof fn lemma_right_password(
    before: AppState,
    after: AppState,
    id: u64,
    password: String,
    now: u128,
    r: Reaction,
    other: IpAddr,
    session: Seq<char>,
)
    requires
        before.conns().contains_key(id),
        after.step(
            before,
            id,
            SocketEvent::Message(ClientMessage::AuthRequest { password }),
            now,
            r,
        ),
        before.ip_backoff.entry(before.conns()[id].ip) matches Some(s) ==> s.backoff_until <= now,
        crate::password::accepts(password@, before.auth.hash()),
        other != before.conns()[id].ip,
    ensures
        r is Admit,
        r->Admit_reply is AuthSuccess,
        r->Admit_reply->token@.len() == 64,
        after.conns()[id].authenticated,
        after.conns()[id].session_token is Some,
        after.conns()[id].session_token->0@ == r->Admit_reply->token@,
        after.conns()[id].unauth_permit is None,
        after.conns()[id].ip == before.conns()[id].ip,
        after.conns()[id].controller_id == before.conns()[id].controller_id,
        after.conns()[id].auth_failures == before.conns()[id].auth_failures,
        after.conns()[id].last_heartbeat == before.conns()[id].last_heartbeat,
        after.conns()[id].last_gamepad_update == before.conns()[id].last_gamepad_update,
        after.auth.hash() == before.auth.hash(),
        after.auth.sessions().contains(r->Admit_reply->token@),
        session != r->Admit_reply->token@ ==> (after.auth.sessions().contains(session) <==> (
        before.auth.sessions().contains(session) && !(before.conns()[id].session_token is Some
            && before.conns()[id].session_token->0@ == session))),
        after.ip_backoff.entry(before.conns()[id].ip) is None,
        after.ip_backoff.entry(other) == before.ip_backoff.entry(other),
        after.ip_backoff.clock() == before.ip_backoff.clock(),
        after.ip_backoff.max_failures() == before.ip_backoff.max_failures(),
        after.ip_backoff.base_ms() == before.ip_backoff.base_ms(),
        after.ip_backoff.max_ms() == before.ip_backoff.max_ms(),
        after.connection_limiter.in_use() == before.connection_limiter.in_use(),
        after.connection_limiter.capacity() == before.connection_limiter.capacity(),
        after.connection_limiter.unauth_capacity() == before.connection_limiter.unauth_capacity(),
        after.connection_limiter.unauth_in_use() == before.connection_limiter.unauth_in_use()
            - if before.conns()[id].authenticated {
            0int
        } else {
            1
        },
        before.conns()[id].authenticated ==> r->create is None && after.gamepad == before.gamepad,
        !before.conns()[id].authenticated ==> after.conns()[id].pending_controller == r->create,
        before.gamepad.inner is None ==> r->create is None,
        !before.conns()[id].authenticated && before.gamepad.inner is Some ==> ({
            let m = before.gamepad.inner->0;
            let n = after.gamepad.inner->0;
            &&& after.gamepad.inner is Some
            &&& n.controllers() == m.controllers()
            &&& n.is_closed() == m.is_closed()
            &&& m.is_closed() ==> r->create is None && n.next_id() == m.next_id()
            &&& !m.is_closed() ==> r->create == Some(m.next_id() as u32)
            &&& !m.is_closed() && m.next_id() < usize::MAX ==> n.next_id() == m.next_id() + 1
        }),
        after.config == before.config && after.upnp == before.upnp,
{
    crate::auth::lemma_token_shape(r->Admit_reply->token@);
}

/// A wrong password, given while the address has not to wait, is counted for the connection and
/// for its address. Where one of them has then reached its limit, the client hears so and the
/// connection ends; else it hears how long it has to wait and how many attempts it has left.
/// Nobody's session, permit or controller changes.
pub proof fn lemma_wrong_password(
    before: AppState,
    after: AppState,
    id: u64,
    password: String,
    now: u128,
    r: Reaction,
    other: IpAddr,
)
    requires
        before.conns().contains_key(id),
        after.step(
            before,
            id,
            SocketEvent::Message(ClientMessage::AuthRequest { password }),
            now,
            r,
        ),
        now <= crate::clock::MAX_READING,
        before.ip_backoff.entry(before.conns()[id].ip) matches Some(s) ==> s.backoff_until <= now
            && s.failures < u32::MAX,
        before.conns()[id].auth_failures < u32::MAX,
        !crate::password::accepts(password@, before.auth.hash()),
        other != before.conns()[id].ip,
    ensures
        ({
            let c = before.conns()[id];
            let d = after.conns()[id];
            let entry = after.ip_backoff.entry(c.ip);
            let ms = crate::auth::backoff_ms(
                before.ip_backoff.base_ms() as nat,
                before.ip_backoff.max_ms() as nat,
                entry->0.failures as nat,
            );
            &&& d.auth_failures == c.auth_failures + 1
            &&& entry is Some
            &&& entry->0.failures == 1 + (match before.ip_backoff.entry(c.ip) {
                Some(s) => s.failures as int,
                None => 0,
            })
            &&& entry->0.last_failure == now
            &&& entry->0.backoff_until == now + 1_000_000 * ms
            &&& if d.auth_failures >= before.config.max_auth_failures || entry->0.failures
                >= before.ip_backoff.max_failures() {
                &&& r is Expel
                &&& r->Expel_reply is AuthFailure
                &&& r->Expel_reply->reason@ == "Too many failed attempts. Connection closed."@
            } else {
                &&& r is Refuse
                &&& r->wait_ms == ms
                &&& r->Refuse_reply is AuthFailure
                &&& r->Refuse_reply->reason@ == "Wrong password. Wait "@ + crate::text::decimal(ms)
                    + "ms before retry. Attempts left: "@ + crate::text::decimal(
                    if before.config.max_auth_failures - d.auth_failures
                        <= before.ip_backoff.max_failures() - entry->0.failures {
                        (before.config.max_auth_failures - d.auth_failures) as nat
                    } else {
                        (before.ip_backoff.max_failures() - entry->0.failures) as nat
                    },
                ) + "."@
            }
            &&& d.authenticated == c.authenticated
            &&& d.session_token == c.session_token
            &&& d.controller_id == c.controller_id
            &&& d.pending_controller == c.pending_controller
            &&& d.ip == c.ip
            &&& d.last_heartbeat == c.last_heartbeat
            &&& d.last_gamepad_update == c.last_gamepad_update
        }),
        before.ip_backoff.entry(other) is None ==> after.ip_backoff.entry(other) is None,
        before.ip_backoff.entry(other) matches Some(s) ==> s.backoff_until > now || now
            < s.last_failure + 300_000_000_000 ==> after.ip_backoff.entry(other) == Some(s),
        after.auth == before.auth && after.gamepad == before.gamepad,
        after.connection_limiter == before.connection_limiter,
        after.config == before.config && after.upnp == before.upnp,
{
    crate::auth::lemma_failure_entries(
        before.ip_backoff,
        after.ip_backoff,
        before.conns()[id].ip,
        other,
        now,
    );
}

/// A password given while the address has to wait is put off for as long as that, and changes
/// nothing.
pub proof fn lemma_password_put_off(
    before: AppState,
    after: AppState,
    id: u64,
    password: String,
    now: u128,
    r: Reaction,
)
    requires
        before.conns().contains_key(id),
        after.step(
            before,
            id,
            SocketEvent::Message(ClientMessage::AuthRequest { password }),
            now,
            r,
        ),
        before.ip_backoff.entry(before.conns()[id].ip) is Some,
        before.ip_backoff.entry(before.conns()[id].ip)->0.backoff_until > now,
    ensures
        after == before,
        r is PutOff,
        r->nanos == before.ip_backoff.entry(before.conns()[id].ip)->0.backoff_until - now,
{
}

/// When a request for a WebSocket is let in: its origin will do, a place is free, and either it
/// brings the token of an open session, or its address has not failed too often and a place for
/// one that is not in is free. Else it is answered with 403 for the origin or the address, and
/// with 503 for want of a place.
pub proof fn lemma_who_is_let_in(
    state: AppState,
    ip: IpAddr,
    query: WsQuery,
    origin: Option<Seq<u8>>,
    host: Option<Seq<u8>>,
)
    ensures
        ({
            let valid = query.token is Some && state.auth.sessions().contains(query.token->0@);
            let entry = state.ip_backoff.entry(ip);
            let cut_off = entry is Some && entry->0.failures >= state.ip_backoff.max_failures();
            let limiter = state.connection_limiter;
            let full = limiter.in_use() >= limiter.capacity() || (!valid
                && limiter.unauth_in_use() >= limiter.unauth_capacity());
            let barred = !super::origin::admissible(origin, host) || (!valid && cut_off);
            let refusal = state.refusal(ip, query, origin, host);
            &&& barred ==> refusal == Some(StatusCode::Forbidden)
            &&& !barred && full ==> refusal == Some(StatusCode::ServiceUnavailable)
            &&& !barred && !full ==> refusal is None
        }),
{
}

/// A connection that is let in starts with its address and without failures or a controller. It
/// is in where it brought a valid token, which is then its session, and takes a second permit
/// where it did not. Nothing else changes.
pub proof fn lemma_how_a_connection_starts(
    before: AppState,
    after: AppState,
    id: u64,
    ip: IpAddr,
    query: WsQuery,
    other: u64,
)
    requires
        after.opened(before, id, ip, query),
        other != id,
    ensures
        ({
            let valid = query.token is Some && before.auth.sessions().contains(query.token->0@);
            let c = after.conns()[id];
            &&& !before.conns().contains_key(id)
            &&& after.conns().contains_key(id)
            &&& c.ip == ip
            &&& c.authenticated == valid
            &&& c.session_token is Some <==> valid
            &&& valid ==> c.session_token->0@ == query.token->0@
            &&& c.unauth_permit is None <==> valid
            &&& c.auth_failures == 0
            &&& c.controller_id is None && c.pending_controller is None
            &&& after.connection_limiter.in_use() == before.connection_limiter.in_use() + 1
            &&& after.connection_limiter.unauth_in_use()
                == before.connection_limiter.unauth_in_use() + if valid {
                0int
            } else {
                1
            }
        }),
        after.conns().contains_key(other) <==> before.conns().contains_key(other),
        before.conns().contains_key(other) ==> after.conns()[other] == before.conns()[other],
        after.connection_limiter.capacity() == before.connection_limiter.capacity(),
        after.connection_limiter.unauth_capacity() == before.connection_limiter.unauth_capacity(),
        after.auth == before.auth && after.gamepad == before.gamepad && after.ip_backoff
            == before.ip_backoff && after.config == before.config && after.upnp == before.upnp,
{
}

/// When a connection ends, it is gone with its session and its permits, and its controller is
/// given up and unplugged where it is plugged in. What the others have stays.
pub proof fn lemma_how_a_connection_ends(
    before: AppState,
    after: AppState,
    id: u64,
    unplug: Option<ControllerId>,
    other: u64,
    session: Seq<char>,
    controller: ControllerId,
)
    requires
        before.conns().contains_key(id),
        after.closed(before, id, unplug),
        other != id,
    ensures
        !after.conns().contains_key(id),
        after.conns().contains_key(other) <==> before.conns().contains_key(other),
        before.conns().contains_key(other) ==> after.conns()[other] == before.conns()[other],
        after.auth.hash() == before.auth.hash(),
        after.auth.sessions().contains(session) <==> before.auth.sessions().contains(session) && !(
        before.conns()[id].session_token is Some && before.conns()[id].session_token->0@
            == session),
        after.connection_limiter.in_use() == before.connection_limiter.in_use() - 1,
        after.connection_limiter.unauth_in_use() == before.connection_limiter.unauth_in_use()
            - if before.conns()[id].authenticated {
            0int
        } else {
            1
        },
        after.connection_limiter.capacity() == before.connection_limiter.capacity(),
        after.connection_limiter.unauth_capacity() == before.connection_limiter.unauth_capacity(),
        before.gamepad.inner is Some <==> after.gamepad.inner is Some,
        before.gamepad.inner is Some ==> ({
            let m = before.gamepad.inner->0;
            let n = after.gamepad.inner->0;
            &&& n.controllers().contains(controller) <==> m.controllers().contains(controller)
                && before.conns()[id].controller_id != Some(controller)
            &&& n.is_closed() == m.is_closed()
            &&& n.next_id() == m.next_id()
        }),
        unplug is Some <==> before.conns()[id].controller_id is Some && before.gamepad.inner is Some
            && before.gamepad.inner->0.controllers().contains(before.conns()[id].controller_id->0),
        unplug is Some ==> unplug == before.conns()[id].controller_id,
        after.ip_backoff == before.ip_backoff && after.config == before.config && after.upnp
            == before.upnp,
{
}

/// A socket that opens asks for a controller where its client is in, and only there; a driver that
/// has plugged it in makes it the connection's own, and a driver that has failed leaves none; a
/// greeting starts the times of the connection. Of other connections nothing changes.
pub proof fn lemma_how_a_connection_gets_its_pad(
    before: AppState,
    after: AppState,
    id: u64,
    create: Option<ControllerId>,
    outcome: DriverOutcome,
    result: Result<(), GamepadError>,
    now: u128,
    other: u64,
)
    requires
        before.conns().contains_key(id),
        other != id,
    ensures
        after.socket_up(before, id, create) ==> {
            &&& !before.conns()[id].authenticated ==> create is None && after == before
            &&& before.gamepad.inner is None ==> create is None
            &&& before.conns()[id].authenticated ==> after.conns()[id].pending_controller == create
            &&& before.conns()[id].authenticated && before.gamepad.inner is Some ==> (create is Some
                <==> !before.gamepad.inner->0.is_closed())
            &&& create is Some ==> create->0 == before.gamepad.inner->0.next_id() as u32
            &&& after.conns()[id].controller_id == before.conns()[id].controller_id
            &&& after.conns()[id].authenticated == before.conns()[id].authenticated
        },
        after.plugged(before, id, outcome, result) && before.conns()[id].pending_controller is Some
            ==> {
            &&& after.conns()[id].pending_controller is None
            &&& outcome is Done ==> result is Ok && after.conns()[id].controller_id
                == before.conns()[id].pending_controller
                && after.gamepad.inner->0.controllers().contains(
                before.conns()[id].pending_controller->0,
            )
            &&& !(outcome is Done) ==> result is Err && after.conns()[id].controller_id
                == before.conns()[id].controller_id
        },
        after.greeted(before, id, now) ==> {
            &&& after.conns()[id].last_gamepad_update == now
            &&& after.conns()[id].last_heartbeat == now
            &&& after.conns()[id].controller_id == before.conns()[id].controller_id
            &&& after.conns()[id].authenticated == before.conns()[id].authenticated
            &&& after.conns()[id].auth_failures == before.conns()[id].auth_failures
            &&& after.auth == before.auth && after.gamepad == before.gamepad && after.ip_backoff
                == before.ip_backoff && after.connection_limiter == before.connection_limiter
        },
        after.socket_up(before, id, create) || after.plugged(before, id, outcome, result)
            || after.greeted(before, id, now) ==> {
            &&& after.conns().contains_key(other) <==> before.conns().contains_key(other)
            &&& before.conns().contains_key(other) ==> after.conns()[other]
                == before.conns()[other]
        },
{
}

/// The sizes that the server goes by.
pub proof fn lemma_sizes()
    ensures
        super::handler::MAX_WS_MESSAGE_SIZE == 64 * 1024,
        super::handler::GAMEPAD_MIN_INTERVAL == 8 * 1_000_000,
        super::server::SNIFF_LEN == 5,
        crate::auth::TOKEN_BYTES == 32,
        crate::auth::FAILURE_MEMORY_SECS == 5 * 60,
        crate::config::GENERATED_PASSWORD_LEN == 16,
        crate::config::CHARSET_LEN == 24 + 24 + 8,
{
}

} // verus!
