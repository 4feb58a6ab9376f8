//! The multi-hop dynamic proxy: a local TCP forward through an
//! intermediate host (stage 1), with the dynamic proxy opened on top of
//! it (stage 2).  The library decides the exact command arguments of
//! both stages and, from process listings, the stop plan; the launch is
//! driven step by step through the verified multi-hop state machine.

use vstd::prelude::*;
use crate::cfg::{
    spec_multi_forward_ip, spec_multi_forward_port, spec_multi_forward_user,
    spec_multi_heart_beat_interval, spec_multi_local_addr, spec_multi_local_forward_port,
    spec_multi_remote_ip, spec_multi_remote_port, spec_multi_remote_user, Config,
};
use crate::inspector::{get_pids, spec_pids, InspectError};
use crate::num::{dec_digits, dec_render};
use crate::supervisor::StopPlan;
use crate::text::{before_colon, first_index, spec_lines};

verus! {

/// The verb group for the multi-hop dynamic proxy.
pub struct MultiDynamicProxy {}

impl MultiDynamicProxy {
    pub fn new() -> (r: Self) {
        Self {  }
    }

    /// `user@host` of the forward hop.
    pub fn get_forward_addr(&self, config: &Config) -> (r: String)
        requires
            config.multi_proxy is Some,
        ensures
            r@ == spec_multi_forward_user(config) + "@"@ + spec_multi_forward_ip(config),
    {
        let mut r = String::from_str(config.get_multi_dynamic_forward_user());
        r.append("@");
        r.append(config.get_multi_dynamic_forward_ip());
        proof {
            assert(r@ =~= spec_multi_forward_user(config) + "@"@ + spec_multi_forward_ip(config));
        }
        r
    }

    /// The local port stage 1 binds for the forward: the configured
    /// fixed port when one is given, else the freshly discovered
    /// ephemeral port.
    pub fn choose_forward_port(&self, config: &Config, discovered: u16) -> (r: usize)
        requires
            config.multi_proxy is Some,
        ensures
            r == match spec_multi_local_forward_port(config) {
                Some(p) => p as int,
                None => discovered as int,
            },
    {
        match config.get_multi_dynamic_local_forward_port() {
            Some(e) => e,
            None => discovered as usize,
        }
    }

    /// Stage-1 arguments: a local TCP forward from `local_forward_port`
    /// to the remote `host:port`, through the forward hop.
    pub fn local_forward_args(&self, config: &Config, local_forward_port: usize) -> (r: Vec<
        String,
    >)
        requires
            config.multi_proxy is Some,
        ensures
            r@.len() == 10,
            r@[0]@ == "-CNf"@,
            r@[1]@ == "-o"@,
            r@[2]@ == "ServerAliveInterval="@ + dec_digits(spec_multi_heart_beat_interval(config)),
            r@[3]@ == "-o"@,
            r@[4]@ == "StrictHostKeyChecking=no"@,
            r@[5]@ == "-L"@,
            r@[6]@ == dec_digits(local_forward_port as int) + ":"@ + spec_multi_remote_ip(config)
                + ":"@ + dec_digits(spec_multi_remote_port(config)),
            r@[7]@ == spec_multi_forward_user(config) + "@"@ + spec_multi_forward_ip(config),
            r@[8]@ == "-p"@,
            r@[9]@ == dec_digits(spec_multi_forward_port(config)),
    {
        let mut r: Vec<String> = Vec::new();
        r.push(String::from_str("-CNf"));
        r.push(String::from_str("-o"));
        let mut keep_alive = String::from_str("ServerAliveInterval=");
        keep_alive.append(dec_render(config.get_multi_dynamic_heart_beat_interval()).as_str());
        r.push(keep_alive);
        r.push(String::from_str("-o"));
        r.push(String::from_str("StrictHostKeyChecking=no"));
        r.push(String::from_str("-L"));
        let mut forward_spec = dec_render(local_forward_port);
        forward_spec.append(":");
        forward_spec.append(config.get_multi_dynamic_remote_ip());
        forward_spec.append(":");
        forward_spec.append(dec_render(config.get_multi_dynamic_remote_port()).as_str());
        proof {
            assert(forward_spec@ =~= dec_digits(local_forward_port as int) + ":"@
                + spec_multi_remote_ip(config) + ":"@ + dec_digits(
                spec_multi_remote_port(config),
            ));
        }
        r.push(forward_spec);
        r.push(self.get_forward_addr(config));
        r.push(String::from_str("-p"));
        r.push(dec_render(config.get_multi_dynamic_forward_port()));
        r
    }

    /// Stage-2 arguments: the dynamic proxy on the local listen address,
    /// against `user@` the host part of that address, hopping back
    /// through the just-established local forward port.
    pub fn dynamic_proxy_args(&self, config: &Config, local_forward_port: usize) -> (r: Vec<
        String,
    >)
        requires
            config.multi_proxy is Some,
        ensures
            r@.len() == 10,
            r@[0]@ == "-CNf"@,
            r@[1]@ == "-o"@,
            r@[2]@ == "ServerAliveInterval="@ + dec_digits(spec_multi_heart_beat_interval(config)),
            r@[3]@ == "-D"@,
            r@[4]@ == spec_multi_local_addr(config),
            r@[5]@ == spec_multi_remote_user(config) + "@"@ + spec_multi_local_addr(config).take(
                first_index(spec_multi_local_addr(config), ':'),
            ),
            r@[6]@ == "-p"@,
            r@[7]@ == dec_digits(local_forward_port as int),
            r@[8]@ == "-o"@,
            r@[9]@ == "StrictHostKeyChecking=no"@,
    {
        let mut r: Vec<String> = Vec::new();
        r.push(String::from_str("-CNf"));
        r.push(String::from_str("-o"));
        let mut keep_alive = String::from_str("ServerAliveInterval=");
        keep_alive.append(dec_render(config.get_multi_dynamic_heart_beat_interval()).as_str());
        r.push(keep_alive);
        r.push(String::from_str("-D"));
        r.push(String::from_str(config.get_multi_dynamic_local_addr()));
        let mut remote_user_local = String::from_str(config.get_multi_dynamic_remote_user());
        remote_user_local.append("@");
        remote_user_local.append(before_colon(config.get_multi_dynamic_local_addr()));
        proof {
            assert(remote_user_local@ =~= spec_multi_remote_user(config) + "@"@
                + spec_multi_local_addr(config).take(
                first_index(spec_multi_local_addr(config), ':'),
            ));
        }
        r.push(remote_user_local);
        r.push(String::from_str("-p"));
        r.push(dec_render(local_forward_port));
        r.push(String::from_str("-o"));
        r.push(String::from_str("StrictHostKeyChecking=no"));
        r
    }

    /// Decide the stop action from two process listings: terminate every
    /// process matching the listen address and every process matching
    /// the forward hop, and report whether any was found.  The first
    /// unreadable listing is the error, as the inspector reports it.
    pub fn stop(&self, listing: &str, addr: &str, forward_listing: &str, forward: &str) -> (r:
        Result<StopPlan, InspectError>)
        ensures
            match r {
                Ok(plan) => {
                    &&& spec_pids(spec_lines(listing@), addr@) matches Ok(p1)
                    &&& spec_pids(spec_lines(forward_listing@), forward@) matches Ok(p2)
                    &&& plan.kill_pids@.map_values(|p: usize| p as int) == p1 + p2
                    &&& plan.found == (plan.kill_pids@.len() > 0)
                },
                Err(e) => {
                    ||| spec_pids(spec_lines(listing@), addr@) == Err::<Seq<int>, _>(e)
                    ||| (spec_pids(spec_lines(listing@), addr@) is Ok && spec_pids(
                        spec_lines(forward_listing@),
                        forward@,
                    ) == Err::<Seq<int>, _>(e))
                },
            },
    {
        let mut pids = match get_pids(listing, addr) {
            Ok(p) => p,
            Err(e) => {
                return Err(e);
            },
        };
        let ghost p1 = pids@.map_values(|p: usize| p as int);
        let pids2 = match get_pids(forward_listing, forward) {
            Ok(p) => p,
            Err(e) => {
                return Err(e);
            },
        };
        let mut k: usize = 0;
        while k < pids2.len()
            invariant
                k <= pids2.len(),
                pids@.map_values(|p: usize| p as int) =~= p1 + pids2@.map_values(
                    |p: usize| p as int,
                ).take(k as int),
            decreases pids2.len() - k,
        {
            let ghost prev = pids@;
            pids.push(pids2[k]);
            proof {
                assert(pids@.map_values(|p: usize| p as int) =~= prev.map_values(
                    |p: usize| p as int,
                ) + seq![pids2@[k as int] as int]);
                assert(pids@.map_values(|p: usize| p as int) =~= p1 + pids2@.map_values(
                    |p: usize| p as int,
                ).take(k + 1));
            }
            k += 1;
        }
        proof {
            assert(pids2@.map_values(|p: usize| p as int).take(pids2@.len() as int)
                =~= pids2@.map_values(|p: usize| p as int));
        }
        let found = pids.len() > 0;
        Ok(StopPlan { kill_pids: pids, found })
    }
}

} // verus!
