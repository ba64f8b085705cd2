//! Administrative endpoint configuration: a plain settings record with
//! defaults, consumed by the server scaffolding around the pool.

use vstd::prelude::*;

verus! {

pub const ADMIN_HOST: &'static str = "127.0.0.1";

pub const ADMIN_PORT: &'static str = "9999";

pub const ADMIN_TIMEOUT: usize = 100;

pub const ADMIN_NEVENT: usize = 1024;

pub const ADMIN_TW_TICK: usize = 10;

pub const ADMIN_TW_CAP: usize = 1000;

pub const ADMIN_TW_NTICK: usize = 100;

pub const ADMIN_USE_TLS: bool = false;

/// Default host as an owned string.
pub fn host() -> (r: String)
    ensures
        r@ == ADMIN_HOST@,
{
    ADMIN_HOST.to_owned()
}

/// Default port as an owned string.
pub fn port() -> (r: String)
    ensures
        r@ == ADMIN_PORT@,
{
    ADMIN_PORT.to_owned()
}

/// Default timeout, in milliseconds.
pub fn timeout() -> (r: usize)
    ensures
        r == ADMIN_TIMEOUT,
{
    ADMIN_TIMEOUT
}

/// Default event budget per poll.
pub fn nevent() -> (r: usize)
    ensures
        r == ADMIN_NEVENT,
{
    ADMIN_NEVENT
}

/// Default timer-wheel tick, in milliseconds.
pub fn tw_tick() -> (r: usize)
    ensures
        r == ADMIN_TW_TICK,
{
    ADMIN_TW_TICK
}

/// Default timer-wheel capacity.
pub fn tw_cap() -> (r: usize)
    ensures
        r == ADMIN_TW_CAP,
{
    ADMIN_TW_CAP
}

/// Default number of timer-wheel ticks per advance.
pub fn tw_ntick() -> (r: usize)
    ensures
        r == ADMIN_TW_NTICK,
{
    ADMIN_TW_NTICK
}

/// Default TLS flag.
pub fn use_tls() -> (r: bool)
    ensures
        r == ADMIN_USE_TLS,
{
    ADMIN_USE_TLS
}

/// Settings of the administrative endpoint.
#[derive(Debug)]
pub struct Admin {
    host: String,
    port: String,
    timeout: usize,
    nevent: usize,
    tw_tick: usize,
    tw_cap: usize,
    tw_ntick: usize,
    use_tls: bool,
}

impl Admin {
    /// The configured host.
    pub closed spec fn spec_host(&self) -> Seq<char> {
        self.host@
    }

    /// The configured port.
    pub closed spec fn spec_port(&self) -> Seq<char> {
        self.port@
    }

    /// The configured timeout.
    pub closed spec fn spec_timeout(&self) -> usize {
        self.timeout
    }

    /// The configured event budget.
    pub closed spec fn spec_nevent(&self) -> usize {
        self.nevent
    }

    /// The configured timer-wheel tick.
    pub closed spec fn spec_tw_tick(&self) -> usize {
        self.tw_tick
    }

    /// The configured timer-wheel capacity.
    pub closed spec fn spec_tw_cap(&self) -> usize {
        self.tw_cap
    }

    /// The configured timer-wheel tick count.
    pub closed spec fn spec_tw_ntick(&self) -> usize {
        self.tw_ntick
    }

    /// The configured TLS flag.
    pub closed spec fn spec_use_tls(&self) -> bool {
        self.use_tls
    }

    /// A settings record with every field given.
    #[allow(clippy::too_many_arguments)]
    pub fn new(
        host: String,
        port: String,
        timeout: usize,
        nevent: usize,
        tw_tick: usize,
        tw_cap: usize,
        tw_ntick: usize,
        use_tls: bool,
    ) -> (r: Admin)
        ensures
            r.spec_host() == host@,
            r.spec_port() == port@,
            r.spec_timeout() == timeout,
            r.spec_nevent() == nevent,
            r.spec_tw_tick() == tw_tick,
            r.spec_tw_cap() == tw_cap,
            r.spec_tw_ntick() == tw_ntick,
            r.spec_use_tls() == use_tls,
    {
        Admin { host, port, timeout, nevent, tw_tick, tw_cap, tw_ntick, use_tls }
    }

    pub fn host(&self) -> (r: String)
        ensures
            r@ == self.spec_host(),
    {
        self.host.clone()
    }

    pub fn port(&self) -> (r: String)
        ensures
            r@ == self.spec_port(),
    {
        self.port.clone()
    }

    pub fn timeout(&self) -> (r: usize)
        ensures
            r == self.spec_timeout(),
    {
        self.timeout
    }

    pub fn nevent(&self) -> (r: usize)
        ensures
            r == self.spec_nevent(),
    {
        self.nevent
    }

    pub fn tw_tick(&self) -> (r: usize)
        ensures
            r == self.spec_tw_tick(),
    {
        self.tw_tick
    }

    pub fn tw_cap(&self) -> (r: usize)
        ensures
            r == self.spec_tw_cap(),
    {
        self.tw_cap
    }

    pub fn tw_ntick(&self) -> (r: usize)
        ensures
            r == self.spec_tw_ntick(),
    {
        self.tw_ntick
    }

    /// If TLS is configured, the administrative endpoint uses TLS too.
    pub fn use_tls(&self) -> (r: bool)
        ensures
            r == self.spec_use_tls(),
    {
        self.use_tls
    }
}

impl Default for Admin {
    /// The default settings: every field takes its documented default.
    fn default() -> (r: Admin)
        ensures
            r.spec_host() == ADMIN_HOST@,
            r.spec_port() == ADMIN_PORT@,
            r.spec_timeout() == ADMIN_TIMEOUT,
            r.spec_nevent() == ADMIN_NEVENT,
            r.spec_tw_tick() == ADMIN_TW_TICK,
            r.spec_tw_cap() == ADMIN_TW_CAP,
            r.spec_tw_ntick() == ADMIN_TW_NTICK,
            r.spec_use_tls() == ADMIN_USE_TLS,
    {
        Admin {
            host: host(),
            port: port(),
            timeout: timeout(),
            nevent: nevent(),
            tw_tick: tw_tick(),
            tw_cap: tw_cap(),
            tw_ntick: tw_ntick(),
            use_tls: use_tls(),
        }
    }
}

/// A configuration that carries administrative endpoint settings.
pub trait AdminConfig {
    fn admin(&self) -> &Admin;
}

} // verus!
