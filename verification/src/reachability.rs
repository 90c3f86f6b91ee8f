use vstd::prelude::*;

use crate::daemon::Daemon;
use crate::errors::DaemonError;

verus! {

/// The character sequences of a sequence of strings.
pub open spec fn views_of(hosts: Seq<String>) -> Seq<Seq<char>> {
    hosts.map_values(|h: String| h@)
}

/// Decide reachability from a row of probe outcomes: `results[i]` is the
/// outcome of the probe against `hosts[i]`, the rows ordered as the probes
/// completed. The answer is the first host whose probe succeeded, or
/// network-unreachable when every probe failed.
pub fn check(hosts: &Vec<String>, results: &Vec<bool>) -> (r: Result<String, DaemonError>)
    requires
        hosts@.len() == results@.len(),
    ensures
        match r {
            Ok(h) => exists|i: int|
                0 <= i < results@.len() && #[trigger] results@[i] && h@ == hosts@[i]@ && (forall|
                    j: int,
                |
                    0 <= j < i ==> !results@[j]),
            Err(e) => e == DaemonError::NetworkUnreachable && (forall|i: int|
                0 <= i < results@.len() ==> !results@[i]),
        },
        r is Err <==> (forall|i: int| 0 <= i < results@.len() ==> !results@[i]),
{
    let n = hosts.len();
    let mut i: usize = 0;
    while i < n
        invariant
            n == hosts@.len(),
            n == results@.len(),
            i <= n,
            forall|j: int| 0 <= j < i ==> !results@[j],
        decreases n - i,
    {
        if results[i] {
            let h = hosts[i].clone();
            proof {
                assert(results@[i as int] && h@ == hosts@[i as int]@);
            }
            return Ok(h);
        }
        i = i + 1;
    }
    Err(DaemonError::NetworkUnreachable)
}

impl Daemon {
    /// Decide reachability of this supervisor's host pool. The caller probed
    /// the pool in some order of its own (randomized, completion-ordered):
    /// `probed` must hold exactly the pool's members, and `results[i]` is the
    /// probe outcome for `probed[i]`. A successful answer is always a member
    /// of the pool; the pool is unreachable exactly when every probe failed.
    pub fn is_network_reachable(&self, probed: &Vec<String>, results: &Vec<bool>) -> (r: Result<
        String,
        DaemonError,
    >)
        requires
            probed@.len() == results@.len(),
            views_of(probed@).to_multiset() == views_of(self.hosts_alive@).to_multiset(),
        ensures
            match r {
                Ok(h) => views_of(self.hosts_alive@).contains(h@) && exists|i: int|
                    0 <= i < results@.len() && #[trigger] results@[i] && h@ == probed@[i]@ && (
                    forall|j: int| 0 <= j < i ==> !results@[j]),
                Err(e) => e == DaemonError::NetworkUnreachable && (forall|i: int|
                    0 <= i < results@.len() ==> !results@[i]),
            },
            r is Err <==> (forall|i: int| 0 <= i < results@.len() ==> !results@[i]),
    {
        let r = check(probed, results);
        proof {
            broadcast use vstd::seq_lib::group_to_multiset_ensures;

            if r is Ok {
                let h = r->Ok_0;
                let i = choose|i: int|
                    0 <= i < results@.len() && #[trigger] results@[i] && h@ == probed@[i]@ && (
                    forall|j: int| 0 <= j < i ==> !results@[j]);
                assert(views_of(probed@)[i] == h@);
                assert(views_of(probed@).contains(h@));
                assert(views_of(probed@).to_multiset().count(h@) > 0);
                assert(views_of(self.hosts_alive@).contains(h@));
            }
        }
        r
    }
}

} // verus!
