//! The advertised control-surface addresses: the viewer URL for the
//! machine's primary local address and for every interface. Which
//! addresses the machine has is the trusted part; the URL shape is
//! verified.

use vstd::prelude::*;

verus! {

use crate::strutil::contains_seq;

/// The viewer URL for one host address.
pub open spec fn spec_url(ip: Seq<char>) -> Seq<char> {
    "http://"@ + ip + ":5273"@
}

/// Builds the viewer URL for one host address.
pub fn url_for_ip(ip: &str) -> (r: String)
    ensures
        r@ == spec_url(ip@),
{
    String::from_str("http://").concat(ip).concat(":5273")
}

/// Relies on local_ip_address::local_ip: the machine's primary local
/// address, printed. Machine-dependent, so nothing is promised of the
/// text.
#[verifier::external_body]
fn local_ip_string() -> (r: Option<String>) {
    match local_ip_address::local_ip() {
        Ok(ip) => Some(ip.to_string()),
        Err(_) => None,
    }
}

/// Relies on local_ip_address::list_afinet_netifas: every interface
/// address of the machine, printed. Machine-dependent, so nothing is
/// promised of the list.
#[verifier::external_body]
fn list_local_ips() -> (r: Vec<String>) {
    match local_ip_address::list_afinet_netifas() {
        Ok(list) => list.into_iter().map(|ip| ip.1.to_string()).collect(),
        Err(_) => Vec::new(),
    }
}

/// A viewer URL built from some colon-free host address.
pub open spec fn is_local_url(s: Seq<char>) -> bool {
    exists|ip: Seq<char>| !contains_seq(ip, ":"@) && s == spec_url(ip)
}

impl crate::config::ConfigHandler {
    /// The viewer URL of the machine's primary local address, or nothing
    /// when the machine has none.
    pub fn get_localhost() -> (r: Option<String>)
        ensures
            r matches Some(u) ==> exists|ip: Seq<char>| u@ == spec_url(ip),
    {
        match local_ip_string() {
            Some(ip) => {
                let u: String = url_for_ip(ip.as_str());
                proof {
                    let w = ip@;
                    assert(u@ == spec_url(w));
                }
                Some(u)
            },
            None => None,
        }
    }

    /// The viewer URL for every interface address of the machine,
    /// skipping the addresses that carry a colon themselves.
    pub fn get_all_local_ip() -> (r: Vec<String>)
        ensures
            forall|j: int| 0 <= j < r@.len() ==> is_local_url((#[trigger] r@[j])@),
    {
        let raw: Vec<String> = list_local_ips();
        let mut out: Vec<String> = Vec::new();
        let n: usize = raw.len();
        let mut i: usize = 0;
        while i < n
            invariant
                n == raw@.len(),
                0 <= i <= n,
                forall|j: int| 0 <= j < out@.len() ==> is_local_url((#[trigger] out@[j])@),
            decreases n - i,
        {
            let cur: &String = &raw[i];
            if !crate::strutil::contains_str(cur.as_str(), ":") {
                let ghost prev = out@;
                let u: String = url_for_ip(cur.as_str());
                out.push(u);
                proof {
                    assert(!contains_seq(cur@, ":"@) && u@ == spec_url(cur@));
                    assert(is_local_url(u@));
                    assert forall|j: int| 0 <= j < out@.len() implies is_local_url(
                        (#[trigger] out@[j])@,
                    ) by {
                        if j < prev.len() {
                            assert(out@[j] == prev[j]);
                        } else {
                            assert(out@[j] == u);
                        }
                    }
                }
            }
            i = i + 1;
        }
        out
    }
}

} // verus!
