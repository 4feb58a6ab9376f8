//! The Tunnel Prober's judgment.  One outbound fetch through the proxy
//! is performed outside the library; its diagnostic text, or the failure
//! to run it at all, is classified here.

use vstd::prelude::*;
use crate::text::{contains_str, spec_contains};

verus! {

/// The diagnostic signatures that mark a proxy rejection.
pub open spec fn rejection_signature(t: Seq<char>) -> bool {
    ||| spec_contains(t, "Connection refused"@)
    ||| spec_contains(t, "connection to proxy closed"@)
    ||| spec_contains(t, "curl: ("@)
}

/// The prober's verdict on one outbound check: healthy unless the probe
/// ran and its diagnostics carry a rejection signature.  A probe that
/// could not run at all is inconclusive and never condemns the tunnel.
pub open spec fn spec_classify(res: &Result<String, String>) -> bool {
    match res {
        Ok(t) => t@.len() == 0 || !rejection_signature(t@),
        Err(_) => true,
    }
}

/// Classify the outcome of one probe: `Ok` carries the diagnostic text
/// the probe produced (empty when it produced none), `Err` means the
/// probe itself could not be run.  Returns whether the tunnel is healthy.
pub fn check_result(res: &Result<String, String>) -> (healthy: bool)
    ensures
        healthy == spec_classify(res),
{
    match res {
        Ok(t) => {
            let t = t.as_str();
            t.unicode_len() == 0 || (!contains_str(t, "Connection refused") && !contains_str(
                t,
                "connection to proxy closed",
            ) && !contains_str(t, "curl: ("))
        },
        Err(_) => true,
    }
}

/// The probe's command arguments: one quiet outbound fetch of a fixed
/// well-known page through `addr` as a SOCKS proxy.
pub fn build_check_args(addr: &str) -> (r: Vec<String>)
    ensures
        r@.len() == 4,
        r@[0]@ == "--no-progress-meter"@,
        r@[1]@ == "--socks5"@,
        r@[2]@ == addr@,
        r@[3]@ == "https://www.baidu.com"@,
{
    let mut r: Vec<String> = Vec::new();
    r.push(String::from_str("--no-progress-meter"));
    r.push(String::from_str("--socks5"));
    r.push(String::from_str(addr));
    r.push(String::from_str("https://www.baidu.com"));
    r
}

/// The classification is total and deterministic: every probe outcome
/// gets exactly one of the two verdicts, equal outcomes get equal
/// verdicts however often they are classified, and an outcome whose
/// probe could not be spawned is always judged healthy, whatever text
/// its error carries.
pub proof fn lemma_classify_total(a: &Result<String, String>, b: &Result<String, String>)
    ensures
        spec_classify(a) || !spec_classify(a),
        a == b ==> spec_classify(a) == spec_classify(b),
        a is Err ==> spec_classify(a),
{
}

} // verus!
