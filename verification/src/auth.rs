//! Who may in: sessions by token, and waiting times by address after failures.

use rand::Rng;
use std::collections::HashMap;
use vstd::hash_set::StringHashSet;
use vstd::prelude::*;

use crate::clock::{Clock, NANOS_PER_MILLI, NANOS_PER_SEC};
use crate::net::IpAddr;
use crate::password;

verus! {

/// The random bytes of a session token.
pub const TOKEN_BYTES: usize = 32;

/// How long a failure is remembered once its waiting time is over, in seconds.
pub const FAILURE_MEMORY_SECS: u64 = 300;

/// `Rng::gen` of `rand::thread_rng` for a byte: any byte may come.
#[verifier::external_body]
fn random_byte() -> (b: u8) {
    rand::thread_rng().gen()
}

/// The session token of some random bytes: their lower-case hex notation.
pub fn token_of(bytes: &Vec<u8>) -> (token: String)
    ensures
        token@ == password::hex_lower(bytes@),
{
    password::hex_encode(bytes)
}

/// Whether a text has the shape of a session token.
pub open spec fn token_shape(token: Seq<char>) -> bool {
    exists|bytes: Seq<u8>|
        bytes.len() == TOKEN_BYTES && token == #[trigger] password::hex_lower(bytes)
}

/// A session token has two characters for each of its bytes, all of them hex digits.
pub proof fn lemma_token_shape(token: Seq<char>)
    requires
        token_shape(token),
    ensures
        token.len() == 2 * TOKEN_BYTES,
        forall|i: int|
            0 <= i < token.len() ==> ('0' <= #[trigger] token[i] <= '9' || 'a' <= token[i] <= 'f'),
{
    let bytes = choose|bytes: Seq<u8>|
        bytes.len() == TOKEN_BYTES && token == #[trigger] password::hex_lower(bytes);
    password::lemma_hex_alphabet(bytes);
}

/// Random bytes for a token.
fn token_bytes() -> (bytes: Vec<u8>)
    ensures
        bytes@.len() == TOKEN_BYTES,
{
    let mut bytes: Vec<u8> = Vec::new();
    while bytes.len() < TOKEN_BYTES
        invariant
            bytes@.len() <= TOKEN_BYTES,
        decreases TOKEN_BYTES - bytes@.len(),
    {
        bytes.push(random_byte());
    }
    bytes
}

/// A password that was held against a stored hash, with what came of it. It takes its time to
/// make, and is made apart from any manager so that none is kept waiting.
pub struct PasswordCheck {
    hash: String,
    password: String,
    passed: bool,
}

impl PasswordCheck {
    /// The hash that the password was held against.
    pub closed spec fn hash(self) -> Seq<char> {
        self.hash@
    }

    /// The password.
    pub closed spec fn password(self) -> Seq<char> {
        self.password@
    }

    /// Whether the password passed.
    pub closed spec fn passed(self) -> bool {
        self.passed
    }

    /// What came of it is true.
    #[verifier::type_invariant]
    spec fn honest(self) -> bool {
        self.passed == password::accepts(self.password@, self.hash@)
    }

    /// Holds a password against a hash.
    pub fn run(hash: String, password: String) -> (check: PasswordCheck)
        ensures
            check.hash() == hash@,
            check.password() == password@,
            check.passed() == password::accepts(password@, hash@),
    {
        let passed = password::verify_password(password.as_str(), hash.as_str());
        PasswordCheck { hash, password, passed }
    }
}

/// Checks passwords against one stored hash and keeps the tokens of the open sessions.
pub struct AuthManager {
    password_hash: String,
    sessions: StringHashSet,
}

impl AuthManager {
    /// The stored password hash.
    pub closed spec fn hash(self) -> Seq<char> {
        self.password_hash@
    }

    /// The tokens of the open sessions.
    pub closed spec fn sessions(self) -> Set<Seq<char>> {
        self.sessions@
    }

    /// The sessions can be counted, and each is under a token of the right shape.
    pub open spec fn wf(self) -> bool {
        &&& self.sessions().finite()
        &&& forall|token: Seq<char>| #[trigger]
            self.sessions().contains(token) ==> token_shape(token)
    }

    /// A manager for a stored hash, without sessions.
    pub fn new(password_hash: String) -> (auth: AuthManager)
        ensures
            auth.wf(),
            auth.hash() == password_hash@,
            auth.sessions() == Set::<Seq<char>>::empty(),
    {
        AuthManager { password_hash, sessions: StringHashSet::new() }
    }

    /// Whether a password passes. Without a stored hash none does.
    pub fn verify_password(&self, password: &str) -> (ok: bool)
        ensures
            ok == password::accepts(password@, self.hash()),
            self.hash().len() == 0 ==> !ok,
            ok && password::scheme(self.hash()) == password::Scheme::Sha256Hex
                ==> password::old_format(self.hash()),
            "$argon2id$"@.is_prefix_of(self.hash()) && ok ==> password::argon2_accepts(
                password@,
                self.hash(),
            ),
            !"$argon2id$"@.is_prefix_of(self.hash()) && ok ==> self.hash() == password::hex_lower(
                password::sha256(vstd::utf8::encode_utf8(password@)),
            ),
    {
        password::verify_password(password, self.password_hash.as_str())
    }

    /// The stored password hash.
    pub fn stored_hash(&self) -> (hash: String)
        ensures
            hash@ == self.hash(),
    {
        self.password_hash.clone()
    }

    /// Whether the password of a check passes. A check against another hash is made anew.
    pub fn confirm(&self, check: &PasswordCheck) -> (ok: bool)
        ensures
            ok == password::accepts(check.password(), self.hash()),
            "$argon2id$"@.is_prefix_of(self.hash()) && ok ==> password::argon2_accepts(
                check.password(),
                self.hash(),
            ),
    {
        proof {
            use_type_invariant(check);
            if "$argon2id$"@.is_prefix_of(self.hash()) {
                password::lemma_argon2_decides(check.password(), self.hash());
            }
        }
        if check.hash == self.password_hash {
            check.passed
        } else {
            self.verify_password(check.password.as_str())
        }
    }

    /// Opens a session under a token that chance picks, and returns the token.
    pub fn create_session(&mut self) -> (token: String)
        requires
            old(self).wf(),
        ensures
            final(self).wf(),
            token_shape(token@),
            token@.len() == 64,
            forall|i: int|
                0 <= i < 64 ==> ('0' <= #[trigger] token@[i] <= '9' || 'a' <= token@[i] <= 'f'),
            final(self).opened(*old(self), token@),
            final(self).sessions() == old(self).sessions().insert(token@),
            final(self).hash() == old(self).hash(),
    {
        let bytes = token_bytes();
        let token = self.open_session(&bytes);
        proof {
            lemma_token_shape(token@);
        }
        token
    }

    /// Opens a session under the token of the given bytes.
    pub fn open_session(&mut self, bytes: &Vec<u8>) -> (token: String)
        requires
            old(self).wf(),
            bytes@.len() == TOKEN_BYTES,
        ensures
            final(self).wf(),
            token@ == password::hex_lower(bytes@),
            final(self).opened(*old(self), token@),
            final(self).sessions() == old(self).sessions().insert(token@),
            final(self).hash() == old(self).hash(),
    {
        let token = token_of(bytes);
        self.sessions.insert(token.clone());
        token
    }

    /// Whether a session is open under a token. An empty token never has one.
    pub fn validate_token(&self, token: &str) -> (ok: bool)
        requires
            self.wf(),
        ensures
            ok == self.sessions().contains(token@),
            token@.len() == 0 ==> !ok,
    {
        proof {
            if self.sessions@.contains(token@) {
                lemma_token_shape(token@);
            }
        }
        if token.is_empty() {
            return false;
        }
        self.sessions.contains(token)
    }

    /// Closes the session under a token, where there is one.
    pub fn remove_session(&mut self, token: &str)
        requires
            old(self).wf(),
        ensures
            final(self).wf(),
            final(self).closed(*old(self), token@),
            final(self).sessions() == old(self).sessions().remove(token@),
            final(self).hash() == old(self).hash(),
    {
        self.sessions.remove(token);
    }

    /// The number of open sessions.
    pub fn session_count(&self) -> (n: usize)
        requires
            self.wf(),
        ensures
            n == self.sessions().len(),
            self.sessions().finite(),
    {
        self.sessions.len()
    }

    /// The manager is `before` with a session open under a token. Unless it was open already,
    /// the sessions are one more.
    pub open spec fn opened(self, before: AuthManager, token: Seq<char>) -> bool {
        &&& self.hash() == before.hash()
        &&& self.sessions() == before.sessions().insert(token)
        &&& self.sessions().finite()
        &&& self.sessions().len() == before.sessions().len() + (if before.sessions().contains(
            token,
        ) {
            0int
        } else {
            1
        })
    }

    /// The manager is `before` without a session under a token. If one was open, the sessions
    /// are one less.
    pub open spec fn closed(self, before: AuthManager, token: Seq<char>) -> bool {
        &&& self.hash() == before.hash()
        &&& self.sessions() == before.sessions().remove(token)
        &&& self.sessions().finite()
        &&& self.sessions().len() == before.sessions().len() - (if before.sessions().contains(
            token,
        ) {
            1int
        } else {
            0
        })
    }
}

/// What is remembered of the failures of an address. Points in time are clock readings.
#[derive(Debug, Clone, Copy, PartialEq, Eq, Structural)]
pub struct FailureState {
    pub failures: u32,
    pub last_failure: u128,
    pub backoff_until: u128,
}

/// The failures in a row once one more is counted.
pub open spec fn counted(before: Option<FailureState>) -> u32 {
    match before {
        None => 1,
        Some(state) => if state.failures < u32::MAX {
            (state.failures + 1) as u32
        } else {
            u32::MAX
        },
    }
}

/// The waiting time after some failures in a row, in milliseconds: the base, doubled for each
/// failure after the first, and at most `max`.
pub open spec fn backoff_ms(base: nat, max: nat, failures: nat) -> nat {
    let grown = base * vstd::arithmetic::power2::pow2((failures - 1) as nat);
    if grown <= max {
        grown
    } else {
        max
    }
}

/// What is remembered of an address after one more failure.
pub open spec fn after_failure(
    before: Option<FailureState>,
    now: u128,
    base: u64,
    max: u64,
) -> FailureState {
    let failures = counted(before);
    FailureState {
        failures,
        last_failure: now,
        backoff_until: (now + backoff_ms(base as nat, max as nat, failures as nat)
            * NANOS_PER_MILLI) as u128,
    }
}

/// Whether an entry is still needed: its waiting time runs, or its last failure is recent.
pub open spec fn fresh(state: FailureState, now: u128) -> bool {
    state.backoff_until > now || now - state.last_failure < FAILURE_MEMORY_SECS * NANOS_PER_SEC
}

/// What is left of an entry once the expired ones are swept out.
pub open spec fn swept(entry: Option<FailureState>, now: u128) -> Option<FailureState> {
    match entry {
        Some(state) => if fresh(state, now) {
            entry
        } else {
            None
        },
        None => None,
    }
}

/// The nanoseconds still to be waited for at a point in time.
pub open spec fn remaining(entry: Option<FailureState>, now: u128) -> Option<u128> {
    match entry {
        Some(state) => if state.backoff_until > now {
            Some((state.backoff_until - now) as u128)
        } else {
            None
        },
        None => None,
    }
}

/// Each further failure keeps the waiting time or lengthens it, up to the limit.
pub proof fn lemma_backoff_grows(base: nat, max: nat, a: nat, b: nat)
    requires
        1 <= a <= b,
    ensures
        backoff_ms(base, max, a) <= backoff_ms(base, max, b) <= max,
{
    let p = vstd::arithmetic::power2::pow2((a - 1) as nat);
    let q = vstd::arithmetic::power2::pow2((b - 1) as nat);
    if a < b {
        vstd::arithmetic::power2::lemma_pow2_strictly_increases((a - 1) as nat, (b - 1) as nat);
    }
    assert(base * p <= base * q) by (nonlinear_arith)
        requires
            p <= q,
    ;
}

/// The waiting time lies between the base and the limit.
pub proof fn lemma_backoff_range(base: nat, max: nat, failures: nat)
    requires
        1 <= failures,
        base <= max,
    ensures
        base <= backoff_ms(base, max, failures) <= max,
{
    lemma_backoff_doubles(base, max, 1);
    lemma_backoff_grows(base, max, 1, failures);
}

/// The first failure waits for the base, and each further one for twice as long as the one
/// before it, up to the limit.
pub proof fn lemma_backoff_doubles(base: nat, max: nat, failures: nat)
    requires
        1 <= failures,
    ensures
        backoff_ms(base, max, 1) == if base <= max {
            base
        } else {
            max
        },
        backoff_ms(base, max, failures + 1) == if 2 * backoff_ms(base, max, failures) <= max {
            2 * backoff_ms(base, max, failures)
        } else {
            max
        },
{
    vstd::arithmetic::power2::lemma2_to64();
    vstd::arithmetic::power2::lemma_pow2_unfold(failures);
    let p = vstd::arithmetic::power2::pow2((failures - 1) as nat);
    assert(base * (2 * p) == 2 * (base * p)) by (nonlinear_arith);
    assert(base * 1 == base);
}

/// Where the waiting time has reached the limit, or there is none, it stays so.
proof fn lemma_backoff_settles(base: nat, max: nat, a: nat, b: nat)
    requires
        1 <= a <= b,
        backoff_ms(base, max, a) == max || base == 0,
    ensures
        backoff_ms(base, max, b) == backoff_ms(base, max, a),
{
    lemma_backoff_grows(base, max, a, b);
    if base == 0 {
        let p = vstd::arithmetic::power2::pow2((a - 1) as nat);
        let q = vstd::arithmetic::power2::pow2((b - 1) as nat);
        assert(base * p == 0 && base * q == 0) by (nonlinear_arith)
            requires
                base == 0,
        ;
    }
}

/// The waiting time after some failures in a row, in milliseconds.
pub fn backoff_millis(base: u64, max: u64, failures: u32) -> (ms: u64)
    requires
        failures >= 1,
    ensures
        ms == backoff_ms(base as nat, max as nat, failures as nat),
        ms <= max,
        base * vstd::arithmetic::power2::pow2((failures - 1) as nat) <= max ==> ms == base
            * vstd::arithmetic::power2::pow2((failures - 1) as nat),
        base * vstd::arithmetic::power2::pow2((failures - 1) as nat) > max ==> ms == max,
{
    proof {
        lemma_backoff_doubles(base as nat, max as nat, 1);
    }
    let mut ms: u64 = if base <= max {
        base
    } else {
        max
    };
    let mut counted: u32 = 1;
    while counted < failures && base > 0 && ms < max
        invariant
            1 <= counted <= failures,
            ms == backoff_ms(base as nat, max as nat, counted as nat),
            ms <= max,
        decreases failures - counted,
    {
        proof {
            lemma_backoff_doubles(base as nat, max as nat, counted as nat);
        }
        ms = if ms <= max - ms {
            ms + ms
        } else {
            max
        };
        counted += 1;
    }
    proof {
        if counted < failures {
            lemma_backoff_settles(base as nat, max as nat, counted as nat, failures as nat);
        }
    }
    ms
}

/// The entries of the addresses of one family, by the number of the address.
struct FailureTable {
    states: HashMap<u128, FailureState>,
}

impl FailureTable {
    /// What is remembered of an address.
    spec fn at(self, addr: u128) -> Option<FailureState> {
        if self.states@.contains_key(addr) {
            Some(self.states@[addr])
        } else {
            None
        }
    }

    fn new() -> (table: FailureTable)
        ensures
            forall|a: u128| #[trigger] table.at(a) is None,
    {
        FailureTable { states: HashMap::new() }
    }

    fn get(&self, addr: u128) -> (entry: Option<FailureState>)
        ensures
            entry == self.at(addr),
    {
        broadcast use vstd::std_specs::hash::group_hash_axioms;

        match self.states.get(&addr) {
            Some(state) => Some(*state),
            None => None,
        }
    }

    fn put(&mut self, addr: u128, state: FailureState)
        ensures
            forall|a: u128| #[trigger]
                final(self).at(a) == if a == addr {
                    Some(state)
                } else {
                    old(self).at(a)
                },
    {
        broadcast use vstd::std_specs::hash::group_hash_axioms;

        self.states.insert(addr, state);
    }

    fn forget(&mut self, addr: u128)
        ensures
            forall|a: u128| #[trigger]
                final(self).at(a) == if a == addr {
                    None
                } else {
                    old(self).at(a)
                },
    {
        broadcast use vstd::std_specs::hash::group_hash_axioms;

        self.states.remove(&addr);
    }

    /// The addresses that have an entry.
    fn addresses(&self) -> (addrs: Vec<u128>)
        ensures
            forall|a: u128| addrs@.contains(a) <==> #[trigger] self.at(a) is Some,
    {
        broadcast use vstd::std_specs::hash::group_hash_axioms;

        let mut addrs: Vec<u128> = Vec::new();
        let keys = self.states.keys();
        let ghost all = vstd::std_specs::iter::IteratorSpec::remaining(&keys).unref();
        for addr in it: keys
            invariant
                it.seq().unref() == all,
                addrs@ =~= all.take(it.index()),
        {
            addrs.push(*addr);
        }
        assert(addrs@ =~= all);
        assert(all.to_set() == self.states@.dom());
        assert forall|a: u128| addrs@.contains(a) <==> #[trigger] self.at(a) is Some by {
            assert(all.to_set().contains(a) <==> all.contains(a));
        }
        addrs
    }

    /// Drops the entries that are no longer needed.
    fn sweep(&mut self, now: u128)
        ensures
            forall|a: u128| #[trigger] final(self).at(a) == swept(old(self).at(a), now),
    {
        let addrs = self.addresses();
        let mut i: usize = 0;
        while i < addrs.len()
            invariant
                i <= addrs@.len(),
                forall|a: u128| addrs@.contains(a) <==> #[trigger] old(self).at(a) is Some,
                forall|a: u128| #[trigger]
                    self.at(a) == if addrs@.take(i as int).contains(a) {
                        swept(old(self).at(a), now)
                    } else {
                        old(self).at(a)
                    },
            decreases addrs@.len() - i,
        {
            let addr: u128 = addrs[i];
            if let Some(state) = self.get(addr) {
                if !is_fresh(&state, now) {
                    self.forget(addr);
                }
            }
            assert(addrs@.take(i + 1) =~= addrs@.take(i as int).push(addr));
            assert forall|a: u128| #[trigger]
                addrs@.take(i + 1).contains(a) <==> addrs@.take(i as int).contains(a) || a
                    == addr by {
                if addrs@.take(i as int).contains(a) {
                    let k = addrs@.take(i as int).index_of(a);
                    assert(addrs@.take(i + 1)[k] == a);
                }
                assert(addrs@.take(i + 1)[i as int] == addr);
            }
            i += 1;
        }
        assert(addrs@.take(i as int) =~= addrs@);
    }
}

/// Whether an entry is still needed.
pub fn is_fresh(state: &FailureState, now: u128) -> (b: bool)
    ensures
        b == fresh(*state, now),
        b == (state.backoff_until > now || now - state.last_failure < 300_000_000_000),
{
    state.backoff_until > now || now < state.last_failure || now - state.last_failure
        < FAILURE_MEMORY_SECS as u128 * NANOS_PER_SEC
}

/// Makes an address wait after failures, longer after each, over all its connections.
pub struct IpBackoffManager {
    clock: Clock,
    v4: FailureTable,
    v6: FailureTable,
    base_ms: u64,
    max_ms: u64,
    max_failures: u32,
}

impl IpBackoffManager {
    /// What is remembered of an address.
    pub closed spec fn entry(self, ip: IpAddr) -> Option<FailureState> {
        match ip {
            IpAddr::V4(a) => self.v4.at(a as u128),
            IpAddr::V6(a) => self.v6.at(a),
        }
    }

    /// The waiting time after the first failure, in milliseconds.
    pub closed spec fn base_ms(self) -> u64 {
        self.base_ms
    }

    /// The longest waiting time, in milliseconds.
    pub closed spec fn max_ms(self) -> u64 {
        self.max_ms
    }

    /// The failures in a row at which an address is cut off.
    pub closed spec fn max_failures(self) -> u32 {
        self.max_failures
    }

    /// The clock by which all points in time are read.
    pub closed spec fn clock(self) -> Clock {
        self.clock
    }

    /// The settings and the clock are those of another manager.
    pub open spec fn same_settings(self, other: IpBackoffManager) -> bool {
        &&& self.clock() == other.clock()
        &&& self.base_ms() == other.base_ms()
        &&& self.max_ms() == other.max_ms()
        &&& self.max_failures() == other.max_failures()
    }

    /// The waiting time that one more failure of an address brings, in milliseconds.
    pub open spec fn next_backoff(self, ip: IpAddr) -> nat {
        backoff_ms(self.base_ms() as nat, self.max_ms() as nat, counted(self.entry(ip)) as nat)
    }

    /// Whether an address has failed so often that it is cut off.
    pub open spec fn cut_off(self, ip: IpAddr) -> bool {
        match self.entry(ip) {
            Some(state) => state.failures >= self.max_failures(),
            None => false,
        }
    }

    /// The manager is `before` with a failure of `ip` counted at the time `now`, and the
    /// expired entries swept out.
    pub open spec fn failed(self, before: IpBackoffManager, ip: IpAddr, now: u128) -> bool {
        &&& self.same_settings(before)
        &&& forall|a: IpAddr| #[trigger]
            self.entry(a) == if a == ip {
                Some(after_failure(before.entry(ip), now, before.base_ms(), before.max_ms()))
            } else {
                swept(before.entry(a), now)
            }
    }

    /// The manager is `before` without what it knew of `ip`.
    pub open spec fn forgot(self, before: IpBackoffManager, ip: IpAddr) -> bool {
        &&& self.same_settings(before)
        &&& forall|a: IpAddr| #[trigger]
            self.entry(a) == if a == ip {
                None
            } else {
                before.entry(a)
            }
    }

    /// A manager that knows of no failure.
    pub fn new(base_ms: u64, max_ms: u64, max_failures: u32) -> (m: IpBackoffManager)
        ensures
            m.base_ms() == base_ms,
            m.max_ms() == max_ms,
            m.max_failures() == max_failures,
            forall|a: IpAddr| #[trigger] m.entry(a) is None,
    {
        IpBackoffManager {
            clock: Clock::start(),
            v4: FailureTable::new(),
            v6: FailureTable::new(),
            base_ms,
            max_ms,
            max_failures,
        }
    }

    fn lookup(&self, ip: IpAddr) -> (entry: Option<FailureState>)
        ensures
            entry == self.entry(ip),
    {
        match ip {
            IpAddr::V4(a) => self.v4.get(a as u128),
            IpAddr::V6(a) => self.v6.get(a),
        }
    }

    /// The present reading of the manager's clock.
    pub fn now(&self) -> (now: u128)
        ensures
            now <= crate::clock::MAX_READING,
    {
        self.clock.now()
    }

    /// How long an address has still to wait at the present moment, if at all.
    pub fn check_backoff(&self, ip: IpAddr) -> (wait: Option<std::time::Duration>)
        ensures
            self.entry(ip) is None ==> wait is None,
            exists|now: u128|
                now <= crate::clock::MAX_READING && wait == match #[trigger] remaining(
                    self.entry(ip),
                    now,
                ) {
                    Some(nanos) => Some(crate::clock::nanos_span(nanos)),
                    None => None,
                },
    {
        let now: u128 = self.now();
        match self.check_backoff_at(ip, now) {
            Some(nanos) => Some(crate::clock::from_nanos(nanos)),
            None => None,
        }
    }

    /// How many nanoseconds an address has still to wait at the time `now`, if at all.
    pub fn check_backoff_at(&self, ip: IpAddr, now: u128) -> (wait: Option<u128>)
        ensures
            wait == remaining(self.entry(ip), now),
            self.entry(ip) is None ==> wait is None,
            self.entry(ip) matches Some(state) ==> if state.backoff_until > now {
                wait == Some((state.backoff_until - now) as u128)
            } else {
                wait is None
            },
    {
        match self.lookup(ip) {
            Some(state) => if state.backoff_until > now {
                Some(state.backoff_until - now)
            } else {
                None
            },
            None => None,
        }
    }

    /// Counts a failure of an address at the present moment, and returns how long it has to
    /// wait from now on.
    pub fn record_failure(&mut self, ip: IpAddr) -> (wait: std::time::Duration)
        ensures
            wait == crate::clock::millis_span(old(self).next_backoff(ip) as u64),
            exists|now: u128|
                now <= crate::clock::MAX_READING && #[trigger] final(self).failed(
                    *old(self),
                    ip,
                    now,
                ),
    {
        let now: u128 = self.now();
        let ms: u64 = self.record_failure_at(ip, now);
        crate::clock::from_millis(ms)
    }

    /// Counts a failure of an address at the time `now`, and returns how many milliseconds it
    /// has to wait from then on.
    pub fn record_failure_at(&mut self, ip: IpAddr, now: u128) -> (ms: u64)
        requires
            now <= crate::clock::MAX_READING,
        ensures
            ms == old(self).next_backoff(ip),
            final(self).failed(*old(self), ip, now),
            final(self).entry(ip) is Some,
            final(self).entry(ip)->0.last_failure == now,
            final(self).entry(ip)->0.backoff_until == now + ms * 1_000_000,
            ms == backoff_ms(
                old(self).base_ms() as nat,
                old(self).max_ms() as nat,
                final(self).entry(ip)->0.failures as nat,
            ),
            old(self).entry(ip) is None ==> final(self).entry(ip)->0.failures == 1,
            old(self).entry(ip) matches Some(state) ==> final(self).entry(ip)->0.failures == if state.failures
                == u32::MAX {
                u32::MAX as int
            } else {
                state.failures + 1
            },
    {
        let failures: u32 = match self.lookup(ip) {
            Some(state) => state.failures.saturating_add(1),
            None => 1,
        };
        let ms: u64 = backoff_millis(self.base_ms, self.max_ms, failures);
        let state = FailureState {
            failures,
            last_failure: now,
            backoff_until: now + ms as u128 * NANOS_PER_MILLI,
        };
        match ip {
            IpAddr::V4(a) => self.v4.put(a as u128, state),
            IpAddr::V6(a) => self.v6.put(a, state),
        }
        self.v4.sweep(now);
        self.v6.sweep(now);
        ms
    }

    /// Forgets the failures of an address.
    pub fn reset_ip(&mut self, ip: IpAddr)
        ensures
            final(self).forgot(*old(self), ip),
            final(self).entry(ip) is None,
            forall|a: IpAddr| a != ip ==> #[trigger] final(self).entry(a) == old(self).entry(a),
    {
        match ip {
            IpAddr::V4(a) => self.v4.forget(a as u128),
            IpAddr::V6(a) => self.v6.forget(a),
        }
    }

    /// How many more failures bring an address to where it is cut off.
    pub open spec fn attempts_left(self, ip: IpAddr) -> u32 {
        match self.entry(ip) {
            Some(state) => if state.failures < self.max_failures() {
                (self.max_failures() - state.failures) as u32
            } else {
                0
            },
            None => self.max_failures(),
        }
    }

    /// How many more failures bring an address to where it is cut off.
    pub fn remaining_attempts(&self, ip: IpAddr) -> (left: u32)
        ensures
            left == self.attempts_left(ip),
            self.entry(ip) is None ==> left == self.max_failures(),
            self.entry(ip) matches Some(state) ==> state.failures <= self.max_failures() ==> left
                == self.max_failures() - state.failures,
            self.entry(ip) matches Some(state) ==> state.failures > self.max_failures() ==> left
                == 0,
    {
        match self.lookup(ip) {
            Some(state) => self.max_failures.saturating_sub(state.failures),
            None => self.max_failures,
        }
    }

    /// Whether an address has failed so often that it is to be cut off.
    pub fn should_disconnect(&self, ip: IpAddr) -> (b: bool)
        ensures
            b == self.cut_off(ip),
            b == (self.entry(ip) is Some && self.entry(ip)->0.failures >= self.max_failures()),
    {
        match self.lookup(ip) {
            Some(state) => state.failures >= self.max_failures,
            None => false,
        }
    }
}

/// A session is valid from when it is opened until it is closed, and leaves no trace.
pub proof fn lemma_session_life(
    before: AuthManager,
    during: AuthManager,
    after: AuthManager,
    token: Seq<char>,
)
    requires
        !before.sessions().contains(token),
        during.opened(before, token),
        after.closed(during, token),
    ensures
        during.sessions().contains(token),
        !after.sessions().contains(token),
        after.sessions() == before.sessions(),
        during.sessions().len() == before.sessions().len() + 1,
        after.sessions().len() == before.sessions().len(),
{
    assert(after.sessions() =~= before.sessions());
}

/// To open or to close a session changes no other one, and to close one that is not open
/// changes nothing.
pub proof fn lemma_sessions_apart(
    before: AuthManager,
    after: AuthManager,
    token: Seq<char>,
    other: Seq<char>,
)
    requires
        after.opened(before, token) || after.closed(before, token),
        other != token,
    ensures
        after.sessions().contains(other) <==> before.sessions().contains(other),
        after.closed(before, token) ==> !after.sessions().contains(token),
        after.closed(before, token) && !before.sessions().contains(token) ==> after.sessions()
            == before.sessions(),
{
    if after.closed(before, token) && !before.sessions().contains(token) {
        assert(after.sessions() =~= before.sessions());
    }
}

/// From a failure on, the address has to wait for as long as it was told.
pub proof fn lemma_failure_makes_wait(
    before: IpBackoffManager,
    after: IpBackoffManager,
    ip: IpAddr,
    now: u128,
    later: u128,
)
    requires
        after.failed(before, ip, now),
        now <= crate::clock::MAX_READING,
        now <= later,
    ensures
        remaining(after.entry(ip), later) is Some <==> later < now + before.next_backoff(ip)
            * NANOS_PER_MILLI,
{
    let state = after_failure(before.entry(ip), now, before.base_ms(), before.max_ms());
    assert(after.entry(ip) == Some(state));
    assert(before.next_backoff(ip) <= before.max_ms());
    assert(before.next_backoff(ip) * NANOS_PER_MILLI <= u64::MAX * NANOS_PER_MILLI)
        by (nonlinear_arith)
        requires
            before.next_backoff(ip) <= u64::MAX,
    ;
}

/// A failure of one address makes no other wait, nor cuts another off.
pub proof fn lemma_failure_is_personal(
    before: IpBackoffManager,
    after: IpBackoffManager,
    ip: IpAddr,
    other: IpAddr,
    now: u128,
    later: u128,
)
    requires
        after.failed(before, ip, now),
        other != ip,
        now <= later,
    ensures
        remaining(after.entry(other), later) == remaining(before.entry(other), later),
        after.cut_off(other) ==> before.cut_off(other),
{
    assert(after.entry(other) == swept(before.entry(other), now));
}

/// A failure is counted for its address: one more in a row than before, seen last now, and to be
/// waited for from now on. Of another address everything is kept, unless its waiting time is
/// over and its last failure lies five minutes back; then nothing is.
pub proof fn lemma_failure_entries(
    before: IpBackoffManager,
    after: IpBackoffManager,
    ip: IpAddr,
    other: IpAddr,
    now: u128,
)
    requires
        after.failed(before, ip, now),
        now <= crate::clock::MAX_READING,
        other != ip,
    ensures
        after.entry(ip) is Some,
        after.entry(ip)->0.failures >= 1,
        before.entry(ip) is None ==> after.entry(ip)->0.failures == 1,
        before.entry(ip) matches Some(s) ==> s.failures < u32::MAX ==> after.entry(ip)->0.failures
            == s.failures + 1,
        after.entry(ip)->0.last_failure == now,
        after.entry(ip)->0.backoff_until == now + 1_000_000 * backoff_ms(
            before.base_ms() as nat,
            before.max_ms() as nat,
            after.entry(ip)->0.failures as nat,
        ),
        before.entry(other) is None ==> after.entry(other) is None,
        before.entry(other) matches Some(s) ==> if s.backoff_until <= now && s.last_failure
            + 300_000_000_000 <= now {
            after.entry(other) is None
        } else {
            after.entry(other) == Some(s)
        },
        after.base_ms() == before.base_ms() && after.max_ms() == before.max_ms(),
        after.max_failures() == before.max_failures(),
        after.clock() == before.clock(),
{
    let state = after_failure(before.entry(ip), now, before.base_ms(), before.max_ms());
    assert(after.entry(ip) == Some(state));
    assert(after.entry(other) == swept(before.entry(other), now));
    let ms = backoff_ms(before.base_ms() as nat, before.max_ms() as nat, state.failures as nat);
    assert(ms <= before.max_ms());
    assert(ms * NANOS_PER_MILLI <= u64::MAX * NANOS_PER_MILLI) by (nonlinear_arith)
        requires
            ms <= u64::MAX,
    ;
}

/// An address whose failures are forgotten has not to wait and is not cut off.
pub proof fn lemma_reset_clears(
    before: IpBackoffManager,
    after: IpBackoffManager,
    ip: IpAddr,
    now: u128,
)
    requires
        after.forgot(before, ip),
    ensures
        remaining(after.entry(ip), now) is None,
        !after.cut_off(ip),
{
    assert(after.entry(ip) is None);
}

/// Failures in a row are counted one by one. With each the waiting time doubles, up to the
/// limit, and the address is cut off with the one that reaches the most failures.
pub proof fn lemma_failures_in_a_row(
    states: Seq<IpBackoffManager>,
    times: Seq<u128>,
    ip: IpAddr,
    n: nat,
)
    requires
        1 <= n <= u32::MAX,
        states.len() == n + 1,
        times.len() == n,
        states[0].entry(ip) is None,
        forall|i: int|
            0 <= i < n ==> (#[trigger] states[i + 1]).failed(states[i], ip, times[i]),
    ensures
        states[n as int].same_settings(states[0]),
        states[n as int].entry(ip) is Some,
        states[n as int].entry(ip)->0.failures == n,
        states[n - 1].next_backoff(ip) == backoff_ms(
            states[0].base_ms() as nat,
            states[0].max_ms() as nat,
            n,
        ),
        states[n as int].cut_off(ip) <==> n >= states[0].max_failures(),
        n <= states[0].max_failures() ==> states[n as int].attempts_left(ip)
            == states[0].max_failures() - n,
    decreases n,
{
    assert(states[(n - 1) + 1].failed(states[n - 1], ip, times[n - 1]));
    if n > 1 {
        lemma_failures_in_a_row(states.take(n as int), times.take(n - 1), ip, (n - 1) as nat);
    }
    assert(counted(states[n - 1].entry(ip)) == n);
    assert(states[n as int].entry(ip) == Some(
        after_failure(
            states[n - 1].entry(ip),
            times[n - 1],
            states[n - 1].base_ms(),
            states[n - 1].max_ms(),
        ),
    ));
}

} // verus!
