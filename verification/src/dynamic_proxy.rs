//! The simple dynamic-proxy tunnel: one SSH client in background
//! dynamic-forward mode.  The library decides the exact command
//! arguments and, from a process listing, the stop plan; the spawning
//! itself happens outside.

use vstd::prelude::*;
use crate::cfg::{
    spec_dynamic_heart_beat_interval, spec_dynamic_local_addr, spec_dynamic_remote_ip,
    spec_dynamic_remote_port, spec_dynamic_remote_user, Config,
};
use crate::inspector::{get_pids, spec_pids, InspectError};
use crate::num::{dec_digits, dec_render};
use crate::supervisor::StopPlan;
use crate::text::spec_lines;

verus! {

/// The verb group for the simple dynamic proxy.
pub struct DynamicProxy {}

impl DynamicProxy {
    pub fn new() -> (r: Self) {
        Self {  }
    }

    /// The SSH client's arguments for opening the dynamic proxy:
    /// compressed background mode, the configured keep-alive interval,
    /// no strict host-key checking, dynamic forwarding on the local
    /// listen address, against `user@host` on the configured port.
    pub fn start_args(&self, config: &Config) -> (r: Vec<String>)
        requires
            config.dynamic_proxy is Some,
        ensures
            r@.len() == 10,
            r@[0]@ == "-CNf"@,
            r@[1]@ == "-o"@,
            r@[2]@ == "ServerAliveInterval="@ + dec_digits(spec_dynamic_heart_beat_interval(config)),
            r@[3]@ == "-o"@,
            r@[4]@ == "StrictHostKeyChecking=no"@,
            r@[5]@ == "-D"@,
            r@[6]@ == spec_dynamic_local_addr(config),
            r@[7]@ == spec_dynamic_remote_user(config) + "@"@ + spec_dynamic_remote_ip(config),
            r@[8]@ == "-p"@,
            r@[9]@ == dec_digits(spec_dynamic_remote_port(config)),
    {
        let mut r: Vec<String> = Vec::new();
        r.push(String::from_str("-CNf"));
        r.push(String::from_str("-o"));
        let mut keep_alive = String::from_str("ServerAliveInterval=");
        keep_alive.append(dec_render(config.get_dynamic_heart_beat_interval()).as_str());
        r.push(keep_alive);
        r.push(String::from_str("-o"));
        r.push(String::from_str("StrictHostKeyChecking=no"));
        r.push(String::from_str("-D"));
        r.push(String::from_str(config.get_dynamic_local_addr()));
        let mut remote = String::from_str(config.get_dynamic_remote_user());
        remote.append("@");
        remote.append(config.get_dynamic_remote_ip());
        r.push(remote);
        r.push(String::from_str("-p"));
        r.push(dec_render(config.get_dynamic_remote_port()));
        r
    }

    /// Decide the stop action from a process listing: terminate every
    /// process whose command line mentions the address, and report
    /// whether any was found.  Finding none is not an error.
    pub fn stop(&self, listing: &str, addr: &str) -> (r: Result<StopPlan, InspectError>)
        ensures
            match r {
                Ok(plan) => {
                    &&& spec_pids(spec_lines(listing@), addr@) == Ok::<_, InspectError>(
                        plan.kill_pids@.map_values(|p: usize| p as int),
                    )
                    &&& plan.found == (plan.kill_pids@.len() > 0)
                },
                Err(e) => spec_pids(spec_lines(listing@), addr@) == Err::<Seq<int>, _>(e),
            },
    {
        match get_pids(listing, addr) {
            Ok(pids) => {
                let found = pids.len() > 0;
                Ok(StopPlan { kill_pids: pids, found })
            },
            Err(e) => Err(e),
        }
    }
}

} // verus!
