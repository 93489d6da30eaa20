//! The settings of the server.

use rand::Rng;
use vstd::prelude::*;

use crate::net::SocketAddrV4;
use crate::password;
use crate::text::{push_decimal, push_flag};

verus! {

/// The name of the settings file, which lies beside the program.
pub const CONFIG_FILE: &'static str = "webpad.toml";

/// The length of a password that the server makes up.
pub const GENERATED_PASSWORD_LEN: usize = 16;

/// What such a password is made of: letters and digits that are not easily mistaken.
pub const CHARSET: &'static str = "ABCDEFGHJKLMNPQRSTUVWXYZabcdefghijkmnpqrstuvwxyz23456789";

/// The number of characters in [`CHARSET`].
pub const CHARSET_LEN: usize = 56;

/// The settings.
#[derive(Clone)]
pub struct Config {
    /// The port that the server listens on.
    pub port: u16,
    /// A second port of older versions; zero where there is none.
    pub http_redirect_port: u16,
    /// Whether the server speaks TLS.
    pub enable_tls: bool,
    /// The password in plain text; empty where none is set.
    pub password: String,
    /// The file of the TLS certificates.
    pub cert_path: Option<String>,
    /// The file of the TLS private key.
    pub key_path: Option<String>,
    /// Whether a port mapping is asked of the gateway.
    pub enable_upnp: bool,
    /// After how many seconds without a heartbeat a client counts as gone.
    pub heartbeat_timeout_secs: u64,
    /// The failures at which a connection is closed.
    pub max_auth_failures: u32,
    /// The waiting time after the first failure, in milliseconds.
    pub auth_backoff_base_ms: u64,
    /// The longest waiting time, in milliseconds.
    pub auth_backoff_max_ms: u64,
    /// The most connections at a time.
    pub max_connections: usize,
    /// The most connections at a time that have not authenticated.
    pub max_unauth_connections: usize,
}

/// The heartbeat timeout where a file names none.
pub fn default_heartbeat() -> (secs: u64)
    ensures
        secs == 30,
{
    30
}

/// The most failures where a file names none.
pub fn default_max_auth_failures() -> (n: u32)
    ensures
        n == 5,
{
    5
}

/// The first waiting time where a file names none.
pub fn default_auth_backoff_base_ms() -> (ms: u64)
    ensures
        ms == 500,
{
    500
}

/// The longest waiting time where a file names none.
pub fn default_auth_backoff_max_ms() -> (ms: u64)
    ensures
        ms == 10000,
{
    10000
}

/// The most connections where a file names no number.
pub fn default_max_connections() -> (n: usize)
    ensures
        n == 8,
{
    8
}

/// The most unauthenticated connections where a file names no number.
pub fn default_max_unauth_connections() -> (n: usize)
    ensures
        n == 3,
{
    3
}

/// TLS is on where a file does not say.
pub fn default_enable_tls() -> (b: bool)
    ensures
        b,
{
    true
}

impl Default for Config {
    fn default() -> (config: Config)
        ensures
            config.is_default(),
    {
        Config {
            port: 8443,
            http_redirect_port: 8080,
            enable_tls: true,
            password: String::new(),
            cert_path: None,
            key_path: None,
            enable_upnp: false,
            heartbeat_timeout_secs: 30,
            max_auth_failures: 5,
            auth_backoff_base_ms: 500,
            auth_backoff_max_ms: 10000,
            max_connections: 8,
            max_unauth_connections: 3,
        }
    }
}

/// What the command line sets.
#[derive(Clone)]
pub struct Overrides {
    pub port: Option<u16>,
    pub password: Option<String>,
    pub no_upnp: bool,
    pub heartbeat_timeout: Option<u64>,
}

/// The choice that stands where a new one may have been made.
pub open spec fn chosen<T>(new: Option<T>, kept: T) -> T {
    match new {
        Some(v) => v,
        None => kept,
    }
}

/// Settings brought up to date. A second port without TLS is given up for TLS, and the old
/// port with TLS for the present one.
pub open spec fn migrated(config: Config) -> Config {
    let tls = config.enable_tls || config.http_redirect_port > 0;
    Config {
        enable_tls: tls,
        http_redirect_port: if config.enable_tls {
            config.http_redirect_port
        } else {
            0
        },
        port: if config.port == 8080 && tls {
            8443
        } else {
            config.port
        },
        ..config
    }
}

/// What is brought up to date is the second port, TLS and the port, and nothing else. There is
/// something to bring up to date where this changes anything.
pub proof fn lemma_migration_changes(config: Config)
    ensures
        // A second port without TLS becomes TLS without a second port.
        config.http_redirect_port > 0 && !config.enable_tls ==> migrated(config).enable_tls
            && migrated(config).http_redirect_port == 0,
        !(config.http_redirect_port > 0 && !config.enable_tls) ==> migrated(config).enable_tls
            == config.enable_tls && migrated(config).http_redirect_port
            == config.http_redirect_port,
        // The old port gives way to the present one where TLS is spoken.
        config.port == 8080 && migrated(config).enable_tls ==> migrated(config).port == 8443,
        config.port != 8080 || !migrated(config).enable_tls ==> migrated(config).port == config.port,
        migrated(config).password == config.password,
        migrated(config).cert_path == config.cert_path,
        migrated(config).key_path == config.key_path,
        migrated(config).enable_upnp == config.enable_upnp,
        migrated(config).heartbeat_timeout_secs == config.heartbeat_timeout_secs,
        migrated(config).max_auth_failures == config.max_auth_failures,
        migrated(config).auth_backoff_base_ms == config.auth_backoff_base_ms,
        migrated(config).auth_backoff_max_ms == config.auth_backoff_max_ms,
        migrated(config).max_connections == config.max_connections,
        migrated(config).max_unauth_connections == config.max_unauth_connections,
        config.outdated() <==> migrated(config) != config,
{
}

/// A made-up password takes its characters from the letters without the two that look like
/// digits, in either case, and from the digits that look like no letter.
pub proof fn lemma_charset()
    ensures
        CHARSET@ == "ABCDEFGHJKLMNPQRSTUVWXYZ"@ + "abcdefghijkmnpqrstuvwxyz"@ + "23456789"@,
        CHARSET@.len() == CHARSET_LEN,
        CONFIG_FILE@ == "webpad.toml"@,
{
    reveal_strlit("ABCDEFGHJKLMNPQRSTUVWXYZabcdefghijkmnpqrstuvwxyz23456789");
    reveal_strlit("ABCDEFGHJKLMNPQRSTUVWXYZ");
    reveal_strlit("abcdefghijkmnpqrstuvwxyz");
    reveal_strlit("23456789");
    assert(CHARSET@ =~= "ABCDEFGHJKLMNPQRSTUVWXYZ"@ + "abcdefghijkmnpqrstuvwxyz"@ + "23456789"@);
}

/// What the command line gives is taken, and what it does not give is kept.
pub proof fn lemma_given_is_chosen<T>(given: T, kept: T)
    ensures
        chosen(Some(given), kept) == given,
        chosen(None, kept) == kept,
{
}

/// Settings that were brought up to date are so, and those that are stay as they are.
pub proof fn lemma_migration_settles(config: Config)
    ensures
        !migrated(config).outdated(),
        !config.outdated() ==> migrated(config) == config,
        migrated(migrated(config)) == migrated(config),
{
}

/// The summary does not tell one password from another.
pub proof fn lemma_summary_hides_password(a: Config, b: Config)
    requires
        a.same_but_password(b),
        a.password@.len() != 0,
        b.password@.len() != 0,
    ensures
        a.summary() == b.summary(),
{
}

/// Whether every character of a text is one of [`CHARSET`].
pub open spec fn in_charset(text: Seq<char>) -> bool {
    forall|i: int| 0 <= i < text.len() ==> CHARSET@.contains(#[trigger] text[i])
}

impl Config {
    /// The settings are those of a server that was not told any.
    pub open spec fn is_default(self) -> bool {
        &&& self.port == 8443
        &&& self.http_redirect_port == 8080
        &&& self.enable_tls
        &&& self.password@.len() == 0
        &&& self.cert_path is None
        &&& self.key_path is None
        &&& !self.enable_upnp
        &&& self.heartbeat_timeout_secs == 30
        &&& self.max_auth_failures == 5
        &&& self.auth_backoff_base_ms == 500
        &&& self.auth_backoff_max_ms == 10000
        &&& self.max_connections == 8
        &&& self.max_unauth_connections == 3
    }

    /// The settings differ from `before` in the password at most.
    pub open spec fn same_but_password(self, before: Config) -> bool {
        self == (Config { password: self.password, ..before })
    }

    /// The settings of an older version that are to be moved to their present place: a second
    /// port without TLS, or the old port with TLS.
    pub open spec fn outdated(self) -> bool {
        (self.http_redirect_port > 0 && !self.enable_tls) || (self.port == 8080 && self.enable_tls)
    }

    /// What the settings tell the user, line by line.
    pub open spec fn summary(self) -> Seq<char> {
        "WebPad Config:\n  HTTPS Port: "@ + crate::text::decimal(self.port as nat)
            + "\n  HTTP Redirect: "@ + (if self.http_redirect_port == 0 {
            "disabled"@
        } else {
            crate::text::decimal(self.http_redirect_port as nat)
        }) + "\n  Auth: "@ + (if self.password@.len() == 0 {
            "disabled"@
        } else {
            "enabled"@
        }) + "\n  UPnP: "@ + crate::text::flag(self.enable_upnp) + "\n  TLS: "@ + (
        match self.cert_path {
            Some(path) => path@,
            None => "self-signed"@,
        }) + "\n  Heartbeat: "@ + crate::text::decimal(self.heartbeat_timeout_secs as nat)
            + "s\n  Max Auth Failures: "@ + crate::text::decimal(self.max_auth_failures as nat)
            + "\n  Auth Backoff: "@ + crate::text::decimal(self.auth_backoff_base_ms as nat)
            + "ms - "@ + crate::text::decimal(self.auth_backoff_max_ms as nat)
            + "ms\n  Max Connections: "@ + crate::text::decimal(self.max_connections as nat)
            + "\n  Max Unauth Connections: "@ + crate::text::decimal(
            self.max_unauth_connections as nat,
        )
    }

    /// What the settings tell the user, as a string. The password itself is not in it.
    pub fn to_string(&self) -> (s: String)
        ensures
            s@ == self.summary(),
            s@ == "WebPad Config:\n  HTTPS Port: "@ + crate::text::decimal(self.port as nat)
                + "\n  HTTP Redirect: "@ + (if self.http_redirect_port == 0 {
                "disabled"@
            } else {
                crate::text::decimal(self.http_redirect_port as nat)
            }) + "\n  Auth: "@ + (if self.password@.len() == 0 {
                "disabled"@
            } else {
                "enabled"@
            }) + "\n  UPnP: "@ + (if self.enable_upnp {
                "true"@
            } else {
                "false"@
            }) + "\n  TLS: "@ + (match self.cert_path {
                Some(path) => path@,
                None => "self-signed"@,
            }) + "\n  Heartbeat: "@ + crate::text::decimal(self.heartbeat_timeout_secs as nat)
                + "s\n  Max Auth Failures: "@ + crate::text::decimal(self.max_auth_failures as nat)
                + "\n  Auth Backoff: "@ + crate::text::decimal(self.auth_backoff_base_ms as nat)
                + "ms - "@ + crate::text::decimal(self.auth_backoff_max_ms as nat)
                + "ms\n  Max Connections: "@ + crate::text::decimal(self.max_connections as nat)
                + "\n  Max Unauth Connections: "@ + crate::text::decimal(
                self.max_unauth_connections as nat,
            ),
    {
        let mut s = "WebPad Config:\n  HTTPS Port: ".to_owned();
        push_decimal(&mut s, self.port as u64);
        s.append("\n  HTTP Redirect: ");
        if self.http_redirect_port == 0 {
            s.append("disabled");
        } else {
            push_decimal(&mut s, self.http_redirect_port as u64);
        }
        s.append("\n  Auth: ");
        if self.password.as_str().is_empty() {
            s.append("disabled");
        } else {
            s.append("enabled");
        }
        s.append("\n  UPnP: ");
        push_flag(&mut s, self.enable_upnp);
        s.append("\n  TLS: ");
        match &self.cert_path {
            Some(path) => s.append(path.as_str()),
            None => s.append("self-signed"),
        }
        s.append("\n  Heartbeat: ");
        push_decimal(&mut s, self.heartbeat_timeout_secs);
        s.append("s\n  Max Auth Failures: ");
        push_decimal(&mut s, self.max_auth_failures as u64);
        s.append("\n  Auth Backoff: ");
        push_decimal(&mut s, self.auth_backoff_base_ms);
        s.append("ms - ");
        push_decimal(&mut s, self.auth_backoff_max_ms);
        s.append("ms\n  Max Connections: ");
        push_decimal(&mut s, self.max_connections as u64);
        s.append("\n  Max Unauth Connections: ");
        push_decimal(&mut s, self.max_unauth_connections as u64);
        assert(s@ =~= self.summary());
        s
    }

    /// Where the server listens: on the port, at every address of the machine.
    pub fn listen_addr(&self) -> (addr: SocketAddrV4)
        ensures
            addr == (SocketAddrV4 { octets: (0, 0, 0, 0), port: self.port }),
    {
        SocketAddrV4 { octets: (0, 0, 0, 0), port: self.port }
    }

    /// The Argon2id hash of the password, with a fresh salt; empty without a password.
    pub fn password_hash(&self) -> (hash: String)
        requires
            password::hashable(self.password@),
        ensures
            self.password@.len() == 0 ==> hash@.len() == 0,
            self.password@.len() != 0 ==> password::scheme(hash@) == password::Scheme::Argon2id,
            self.password@.len() != 0 ==> password::accepts(self.password@, hash@),
            self.password@.len() != 0 ==> "$argon2id$"@.is_prefix_of(hash@)
                && password::argon2_accepts(self.password@, hash@),
    {
        if self.password.as_str().is_empty() {
            String::new()
        } else {
            password::hash_password(self.password.as_str())
        }
    }

    /// Whether a password passes against a fresh hash of the one that is set. The one that is
    /// set passes. Where none is set, nothing passes.
    pub fn verify_password(&self, password: &str) -> (ok: bool)
        requires
            password::hashable(self.password@),
        ensures
            self.password@.len() == 0 ==> !ok,
            self.password@.len() != 0 && password@ == self.password@ ==> ok,
            self.password@.len() != 0 ==> exists|hash: Seq<char>|
                password::scheme(hash) == password::Scheme::Argon2id && password::accepts(
                    self.password@,
                    hash,
                ) && ok == #[trigger] password::accepts(password@, hash),
            ok ==> exists|hash: Seq<char>|
                #[trigger] password::argon2_accepts(password@, hash) && password::argon2_accepts(
                    self.password@,
                    hash,
                ),
    {
        let hash = self.password_hash();
        password::verify_password(password, hash.as_str())
    }

    /// After how many seconds without a heartbeat a client counts as gone: five at least.
    pub open spec fn heartbeat_secs(self) -> u64 {
        if self.heartbeat_timeout_secs >= 5 {
            self.heartbeat_timeout_secs
        } else {
            5
        }
    }

    /// After how long without a heartbeat a client counts as gone: five seconds at least.
    pub fn heartbeat_timeout(&self) -> (timeout: std::time::Duration)
        ensures
            timeout == crate::clock::span(self.heartbeat_secs(), 0),
            self.heartbeat_timeout_secs >= 5 ==> timeout == crate::clock::span(
                self.heartbeat_timeout_secs,
                0,
            ),
            self.heartbeat_timeout_secs < 5 ==> timeout == crate::clock::span(5, 0),
    {
        crate::clock::from_secs(self.silence_allowed())
    }

    /// After how many seconds without a heartbeat a client counts as gone.
    pub fn silence_allowed(&self) -> (secs: u64)
        ensures
            secs == self.heartbeat_secs(),
            self.heartbeat_timeout_secs >= 5 ==> secs == self.heartbeat_timeout_secs,
            self.heartbeat_timeout_secs < 5 ==> secs == 5,
    {
        if self.heartbeat_timeout_secs >= 5 {
            self.heartbeat_timeout_secs
        } else {
            5
        }
    }

    /// Brings settings of an older version up to date, and says whether there was anything to
    /// bring up to date.
    pub fn migrate(&mut self) -> (changed: bool)
        ensures
            changed == old(self).outdated(),
            changed == (*final(self) != *old(self)),
            *final(self) == migrated(*old(self)),
            // A second port without TLS becomes TLS without a second port.
            old(self).http_redirect_port > 0 && !old(self).enable_tls ==> final(self).enable_tls
                && final(self).http_redirect_port == 0,
            !(old(self).http_redirect_port > 0 && !old(self).enable_tls) ==> final(self).enable_tls
                == old(self).enable_tls && final(self).http_redirect_port
                == old(self).http_redirect_port,
            // The old port gives way to the present one where TLS is spoken.
            old(self).port == 8080 && final(self).enable_tls ==> final(self).port == 8443,
            old(self).port != 8080 || !final(self).enable_tls ==> final(self).port == old(self).port,
            final(self).password == old(self).password,
            final(self).cert_path == old(self).cert_path,
            final(self).key_path == old(self).key_path,
            final(self).enable_upnp == old(self).enable_upnp,
            final(self).heartbeat_timeout_secs == old(self).heartbeat_timeout_secs,
            final(self).max_auth_failures == old(self).max_auth_failures,
            final(self).auth_backoff_base_ms == old(self).auth_backoff_base_ms,
            final(self).auth_backoff_max_ms == old(self).auth_backoff_max_ms,
            final(self).max_connections == old(self).max_connections,
            final(self).max_unauth_connections == old(self).max_unauth_connections,
    {
        let mut changed = false;
        if self.http_redirect_port > 0 && !self.enable_tls {
            self.enable_tls = true;
            self.http_redirect_port = 0;
            changed = true;
        }
        if self.port == 8080 && self.enable_tls {
            self.port = 8443;
            changed = true;
        }
        changed
    }

    /// The settings to start from: those of the file, brought up to date, or the default ones
    /// where no file could be read. Says beside them whether they are to be written to the
    /// file: where they differ from what stands there.
    pub fn load_or_create(stored: Option<Config>) -> (r: (Config, bool))
        ensures
            match stored {
                Some(config) => r.0 == migrated(config) && r.1 == config.outdated(),
                None => r.0.is_default() && r.1,
            },
            stored matches Some(config) ==> r.1 == (r.0 != config),
    {
        match stored {
            Some(config) => {
                let mut config = config;
                let changed = config.migrate();
                (config, changed)
            },
            None => (Config::default(), true),
        }
    }

    /// Makes up a password where none is set.
    pub fn ensure_password(&mut self)
        ensures
            final(self).same_but_password(*old(self)),
            old(self).password@.len() != 0 ==> *final(self) == *old(self),
            old(self).password@.len() == 0 ==> final(self).password@.len()
                == GENERATED_PASSWORD_LEN && in_charset(final(self).password@),
            final(self).password@.len() != 0,
            final(self).port == old(self).port,
            final(self).http_redirect_port == old(self).http_redirect_port,
            final(self).enable_tls == old(self).enable_tls,
            final(self).cert_path == old(self).cert_path,
            final(self).key_path == old(self).key_path,
            final(self).enable_upnp == old(self).enable_upnp,
            final(self).heartbeat_timeout_secs == old(self).heartbeat_timeout_secs,
            final(self).max_auth_failures == old(self).max_auth_failures,
            final(self).auth_backoff_base_ms == old(self).auth_backoff_base_ms,
            final(self).auth_backoff_max_ms == old(self).auth_backoff_max_ms,
            final(self).max_connections == old(self).max_connections,
            final(self).max_unauth_connections == old(self).max_unauth_connections,
    {
        if self.password.as_str().is_empty() {
            self.password = generate_password(GENERATED_PASSWORD_LEN);
        }
    }

    /// Lets the command line have its way.
    pub fn apply(&mut self, overrides: &Overrides)
        ensures
            *final(self) == (Config {
                port: chosen(overrides.port, old(self).port),
                password: chosen(overrides.password, old(self).password),
                enable_upnp: old(self).enable_upnp && !overrides.no_upnp,
                heartbeat_timeout_secs: chosen(
                    overrides.heartbeat_timeout,
                    old(self).heartbeat_timeout_secs,
                ),
                ..*old(self)
            }),
            overrides.port matches Some(port) ==> final(self).port == port,
            overrides.port is None ==> final(self).port == old(self).port,
            overrides.password matches Some(password) ==> final(self).password@ == password@,
            overrides.password is None ==> final(self).password == old(self).password,
            overrides.no_upnp ==> !final(self).enable_upnp,
            !overrides.no_upnp ==> final(self).enable_upnp == old(self).enable_upnp,
            overrides.heartbeat_timeout matches Some(secs) ==> final(self).heartbeat_timeout_secs
                == secs,
            overrides.heartbeat_timeout is None ==> final(self).heartbeat_timeout_secs == old(
                self,
            ).heartbeat_timeout_secs,
    {
        if let Some(port) = overrides.port {
            self.port = port;
        }
        if let Some(secs) = overrides.heartbeat_timeout {
            self.heartbeat_timeout_secs = secs;
        }
        if overrides.no_upnp {
            self.enable_upnp = false;
        }
        if let Some(password) = &overrides.password {
            self.password = password.clone();
        }
    }

    /// The settings that the server starts with: the command line goes before the file, and
    /// where neither gives a password, one is made up.
    pub fn prepare(&mut self, overrides: &Overrides)
        ensures
            final(self).password@.len() != 0,
            overrides.port matches Some(port) ==> final(self).port == port,
            overrides.port is None ==> final(self).port == old(self).port,
            overrides.password matches Some(password) ==> password@.len() != 0 ==>
                final(self).password@ == password@,
            overrides.password is None && old(self).password@.len() != 0 ==> final(self).password@
                == old(self).password@,
            overrides.no_upnp ==> !final(self).enable_upnp,
            !overrides.no_upnp ==> final(self).enable_upnp == old(self).enable_upnp,
            overrides.heartbeat_timeout matches Some(secs) ==> final(self).heartbeat_timeout_secs
                == secs,
            overrides.heartbeat_timeout is None ==> final(self).heartbeat_timeout_secs == old(
                self,
            ).heartbeat_timeout_secs,
            ({
                let asked = chosen(overrides.password, old(self).password);
                if asked@.len() != 0 {
                    final(self).password == asked
                } else {
                    final(self).password@.len() == GENERATED_PASSWORD_LEN && in_charset(
                        final(self).password@,
                    )
                }
            }),
            *final(self) == (Config {
                port: chosen(overrides.port, old(self).port),
                password: final(self).password,
                enable_upnp: old(self).enable_upnp && !overrides.no_upnp,
                heartbeat_timeout_secs: chosen(
                    overrides.heartbeat_timeout,
                    old(self).heartbeat_timeout_secs,
                ),
                ..*old(self)
            }),
    {
        self.apply(overrides);
        self.ensure_password();
    }
}

/// `Rng::gen_range` of `rand::thread_rng` for the numbers below `n`: any of them may come.
#[verifier::external_body]
fn random_below(n: usize) -> (i: usize)
    requires
        n > 0,
    ensures
        i < n,
{
    rand::thread_rng().gen_range(0..n)
}

/// A password of some length, each character of which chance picks.
pub fn generate_password(length: usize) -> (password: String)
    ensures
        password@.len() == length,
        in_charset(password@),
{
    let mut choices: Vec<usize> = Vec::new();
    while choices.len() < length
        invariant
            choices@.len() <= length,
            forall|i: int| 0 <= i < choices@.len() ==> #[trigger] choices@[i] < CHARSET_LEN,
        decreases length - choices@.len(),
    {
        choices.push(random_below(CHARSET_LEN));
    }
    password_of(&choices)
}

/// The password that a row of choices stands for: the character of [`CHARSET`] at each.
pub fn password_of(choices: &Vec<usize>) -> (password: String)
    requires
        forall|i: int| 0 <= i < choices@.len() ==> #[trigger] choices@[i] < CHARSET_LEN,
    ensures
        password@ == choices@.map_values(|c: usize| CHARSET@[c as int]),
        password@.len() == choices@.len(),
        forall|i: int|
            0 <= i < choices@.len() ==> #[trigger] password@[i] == CHARSET@[choices@[i] as int],
        in_charset(password@),
{
    proof {
        reveal_strlit("ABCDEFGHJKLMNPQRSTUVWXYZabcdefghijkmnpqrstuvwxyz23456789");
    }
    let mut password = String::new();
    let mut i: usize = 0;
    while i < choices.len()
        invariant
            i <= choices@.len(),
            CHARSET@.len() == CHARSET_LEN,
            forall|j: int| 0 <= j < choices@.len() ==> #[trigger] choices@[j] < CHARSET_LEN,
            password@ =~= choices@.take(i as int).map_values(|c: usize| CHARSET@[c as int]),
        decreases choices@.len() - i,
    {
        password.push(CHARSET.get_char(choices[i]));
        i += 1;
    }
    assert(choices@.take(i as int) =~= choices@);
    assert forall|j: int| 0 <= j < password@.len() implies CHARSET@.contains(
        #[trigger] password@[j],
    ) by {
        assert(CHARSET@[choices@[j] as int] == password@[j]);
    }
    password
}

} // verus!
