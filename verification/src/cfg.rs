//! Typed, defaulted connection parameters.  The configuration file itself
//! is read and decoded outside the library; the decoded sections arrive
//! here as plain values, and the getters apply the documented defaults:
//! remote and forward user `root`, remote and forward port 22, heartbeat
//! interval 60 seconds, a restart-failure ceiling of 3 and a poll interval
//! of 5 seconds for the probe loop.

use vstd::prelude::*;

verus! {

/// Parameters of a simple dynamic (SOCKS) proxy tunnel.
#[derive(Debug, Clone)]
pub struct DynamicProxyConfig {
    pub local_addr: String,
    pub remote_user: Option<String>,
    pub remote_ip: String,
    pub remote_port: Option<usize>,
    pub heart_beat_interval: Option<usize>,
}

/// Parameters of a multi-hop dynamic proxy: a local TCP forward through
/// an intermediate host, with the dynamic proxy opened on top of it.
#[derive(Debug, Clone)]
pub struct MultiDynamicProxyConfig {
    pub local_addr: String,
    pub local_forward_port: Option<usize>,
    pub remote_user: Option<String>,
    pub remote_ip: String,
    pub remote_port: Option<usize>,
    pub heart_beat_interval: Option<usize>,
    pub forward_ip: String,
    pub forward_port: Option<usize>,
    pub forward_user: Option<String>,
}

/// The whole configuration: either section may be absent, and each verb
/// demands the section of its tunnel topology.
#[derive(Debug, Clone)]
pub struct Config {
    pub dynamic_proxy: Option<DynamicProxyConfig>,
    pub multi_proxy: Option<MultiDynamicProxyConfig>,
    /// Consecutive restart failures after which the probe loop gives up.
    pub probe_failed_times_when_exit: Option<usize>,
    /// Seconds the probe loop sleeps between liveness checks.
    pub probe_check_interval: Option<usize>,
}

pub open spec fn spec_dynamic_local_addr(c: &Config) -> Seq<char> {
    c.dynamic_proxy->Some_0.local_addr@
}

pub open spec fn spec_dynamic_remote_user(c: &Config) -> Seq<char> {
    match c.dynamic_proxy->Some_0.remote_user {
        Some(u) => u@,
        None => "root"@,
    }
}

pub open spec fn spec_dynamic_remote_ip(c: &Config) -> Seq<char> {
    c.dynamic_proxy->Some_0.remote_ip@
}

pub open spec fn spec_dynamic_remote_port(c: &Config) -> int {
    match c.dynamic_proxy->Some_0.remote_port {
        Some(p) => p as int,
        None => 22,
    }
}

pub open spec fn spec_dynamic_heart_beat_interval(c: &Config) -> int {
    match c.dynamic_proxy->Some_0.heart_beat_interval {
        Some(h) => h as int,
        None => 60,
    }
}

pub open spec fn spec_multi_local_addr(c: &Config) -> Seq<char> {
    c.multi_proxy->Some_0.local_addr@
}

pub open spec fn spec_multi_local_forward_port(c: &Config) -> Option<usize> {
    c.multi_proxy->Some_0.local_forward_port
}

pub open spec fn spec_multi_remote_user(c: &Config) -> Seq<char> {
    match c.multi_proxy->Some_0.remote_user {
        Some(u) => u@,
        None => "root"@,
    }
}

pub open spec fn spec_multi_remote_ip(c: &Config) -> Seq<char> {
    c.multi_proxy->Some_0.remote_ip@
}

pub open spec fn spec_multi_remote_port(c: &Config) -> int {
    match c.multi_proxy->Some_0.remote_port {
        Some(p) => p as int,
        None => 22,
    }
}

pub open spec fn spec_multi_heart_beat_interval(c: &Config) -> int {
    match c.multi_proxy->Some_0.heart_beat_interval {
        Some(h) => h as int,
        None => 60,
    }
}

pub open spec fn spec_multi_forward_user(c: &Config) -> Seq<char> {
    match c.multi_proxy->Some_0.forward_user {
        Some(u) => u@,
        None => "root"@,
    }
}

pub open spec fn spec_multi_forward_ip(c: &Config) -> Seq<char> {
    c.multi_proxy->Some_0.forward_ip@
}

pub open spec fn spec_multi_forward_port(c: &Config) -> int {
    match c.multi_proxy->Some_0.forward_port {
        Some(p) => p as int,
        None => 22,
    }
}

pub open spec fn spec_probe_failed_times_when_exit(c: &Config) -> int {
    match c.probe_failed_times_when_exit {
        Some(t) => t as int,
        None => 3,
    }
}

pub open spec fn spec_probe_check_interval(c: &Config) -> int {
    match c.probe_check_interval {
        Some(t) => t as int,
        None => 5,
    }
}

impl Config {
    /// The dynamic-proxy section; callers must have checked it is present
    /// (the tool exits with a message when it is not).
    pub fn load_dynamic_config(&self) -> (r: &DynamicProxyConfig)
        requires
            self.dynamic_proxy is Some,
        ensures
            *r == self.dynamic_proxy->Some_0,
    {
        match &self.dynamic_proxy {
            Some(c) => c,
            None => vstd::pervasive::unreached(),
        }
    }

    pub fn get_dynamic_local_addr(&self) -> (r: &str)
        requires
            self.dynamic_proxy is Some,
        ensures
            r@ == spec_dynamic_local_addr(self),
    {
        self.load_dynamic_config().local_addr.as_str()
    }

    pub fn get_dynamic_remote_user(&self) -> (r: &str)
        requires
            self.dynamic_proxy is Some,
        ensures
            r@ == spec_dynamic_remote_user(self),
    {
        match &self.load_dynamic_config().remote_user {
            Some(e) => e.as_str(),
            None => "root",
        }
    }

    pub fn get_dynamic_remote_port(&self) -> (r: usize)
        requires
            self.dynamic_proxy is Some,
        ensures
            r == spec_dynamic_remote_port(self),
    {
        match self.load_dynamic_config().remote_port {
            Some(p) => p,
            None => 22,
        }
    }

    pub fn get_dynamic_remote_ip(&self) -> (r: &str)
        requires
            self.dynamic_proxy is Some,
        ensures
            r@ == spec_dynamic_remote_ip(self),
    {
        self.load_dynamic_config().remote_ip.as_str()
    }

    pub fn get_dynamic_heart_beat_interval(&self) -> (r: usize)
        requires
            self.dynamic_proxy is Some,
        ensures
            r == spec_dynamic_heart_beat_interval(self),
    {
        match self.load_dynamic_config().heart_beat_interval {
            Some(h) => h,
            None => 60,
        }
    }

    /// The multi-hop section; callers must have checked it is present.
    pub fn load_multi_dynamic_config(&self) -> (r: &MultiDynamicProxyConfig)
        requires
            self.multi_proxy is Some,
        ensures
            *r == self.multi_proxy->Some_0,
    {
        match &self.multi_proxy {
            Some(c) => c,
            None => vstd::pervasive::unreached(),
        }
    }

    pub fn get_multi_dynamic_local_addr(&self) -> (r: &str)
        requires
            self.multi_proxy is Some,
        ensures
            r@ == spec_multi_local_addr(self),
    {
        self.load_multi_dynamic_config().local_addr.as_str()
    }

    pub fn get_multi_dynamic_remote_user(&self) -> (r: &str)
        requires
            self.multi_proxy is Some,
        ensures
            r@ == spec_multi_remote_user(self),
    {
        match &self.load_multi_dynamic_config().remote_user {
            Some(e) => e.as_str(),
            None => "root",
        }
    }

    pub fn get_multi_dynamic_remote_port(&self) -> (r: usize)
        requires
            self.multi_proxy is Some,
        ensures
            r == spec_multi_remote_port(self),
    {
        match self.load_multi_dynamic_config().remote_port {
            Some(p) => p,
            None => 22,
        }
    }

    pub fn get_multi_dynamic_remote_ip(&self) -> (r: &str)
        requires
            self.multi_proxy is Some,
        ensures
            r@ == spec_multi_remote_ip(self),
    {
        self.load_multi_dynamic_config().remote_ip.as_str()
    }

    pub fn get_multi_dynamic_heart_beat_interval(&self) -> (r: usize)
        requires
            self.multi_proxy is Some,
        ensures
            r == spec_multi_heart_beat_interval(self),
    {
        match self.load_multi_dynamic_config().heart_beat_interval {
            Some(h) => h,
            None => 60,
        }
    }

    pub fn get_multi_dynamic_forward_user(&self) -> (r: &str)
        requires
            self.multi_proxy is Some,
        ensures
            r@ == spec_multi_forward_user(self),
    {
        match &self.load_multi_dynamic_config().forward_user {
            Some(e) => e.as_str(),
            None => "root",
        }
    }

    pub fn get_multi_dynamic_forward_port(&self) -> (r: usize)
        requires
            self.multi_proxy is Some,
        ensures
            r == spec_multi_forward_port(self),
    {
        match self.load_multi_dynamic_config().forward_port {
            Some(p) => p,
            None => 22,
        }
    }

    pub fn get_multi_dynamic_forward_ip(&self) -> (r: &str)
        requires
            self.multi_proxy is Some,
        ensures
            r@ == spec_multi_forward_ip(self),
    {
        self.load_multi_dynamic_config().forward_ip.as_str()
    }

    pub fn get_multi_dynamic_local_forward_port(&self) -> (r: Option<usize>)
        requires
            self.multi_proxy is Some,
        ensures
            r == spec_multi_local_forward_port(self),
    {
        self.load_multi_dynamic_config().local_forward_port
    }

    /// Restart failures the probe loop tolerates before giving up.
    pub fn get_probe_failed_times_when_exit(&self) -> (r: usize)
        ensures
            r == spec_probe_failed_times_when_exit(self),
    {
        match self.probe_failed_times_when_exit {
            Some(t) => t,
            None => 3,
        }
    }

    /// Seconds between two liveness checks of the probe loop.
    pub fn get_probe_check_interval(&self) -> (r: usize)
        ensures
            r == spec_probe_check_interval(self),
    {
        match self.probe_check_interval {
            Some(t) => t,
            None => 5,
        }
    }
}

} // verus!
