use vstd::prelude::*;

use crate::model::{CertEntry, Domain, IpAddress};
use crate::names::{
    candidate_name, common_names, generate_candidates, passive_candidates, passive_names,
};

verus! {

/// The most resolutions an active scan keeps in flight at once.
pub const MAX_IN_FLIGHT: usize = 100;

/// The decisions of a scan over a fixed list of candidates: which candidate
/// to resolve next, how many resolutions may be in flight, and which
/// resolved names to keep.
///
/// The caller performs each resolution it is handed and reports back with
/// `complete`; the scan is over when `is_finished` holds.
pub struct Dispatch {
    /// The names to resolve, in dispatch order.
    pub candidates: Vec<String>,
    /// How many candidates have been handed out.
    pub next: usize,
    /// How many handed-out candidates have not been reported back.
    pub in_flight: usize,
    /// The most resolutions that may be in flight at once.
    pub limit: usize,
    /// The names that resolved to at least one address, in completion order.
    pub found: Vec<Domain>,
}

/// Every domain of the list resolved to at least one address.
pub open spec fn all_resolved(ds: Seq<Domain>) -> bool {
    forall|k: int| 0 <= k < ds.len() ==> #[trigger] ds[k].ips@.len() > 0
}

impl Dispatch {
    /// The dispatcher's invariant.
    pub open spec fn wf(&self) -> bool {
        &&& self.next <= self.candidates@.len()
        &&& self.in_flight <= self.next
        &&& 1 <= self.limit <= MAX_IN_FLIGHT
        &&& self.in_flight <= self.limit
        &&& forall|k: int| 0 <= k < self.found@.len() ==> #[trigger] self.found@[k].ips@.len() > 0
    }

    /// The names of the candidates, in dispatch order.
    pub open spec fn candidate_names(&self) -> Seq<Seq<char>> {
        self.candidates@.map_values(|s: String| s@)
    }

    /// A fresh dispatcher over `candidates`.
    fn start(candidates: Vec<String>, limit: usize) -> (r: Dispatch)
        requires
            1 <= limit <= MAX_IN_FLIGHT,
        ensures
            r.wf(),
            r.candidates@ == candidates@,
            r.next == 0,
            r.in_flight == 0,
            r.limit == limit,
            r.found@.len() == 0,
    {
        Dispatch { candidates, next: 0, in_flight: 0, limit, found: Vec::new() }
    }

    /// An active scan: one candidate `word.base_domain` per word, in the
    /// list's order, with up to `MAX_IN_FLIGHT` resolutions in flight.
    pub fn active(base_domain: &String, word_list: &Vec<String>) -> (r: Dispatch)
        ensures
            r.wf(),
            r.candidates@.len() == word_list@.len(),
            forall|i: int|
                0 <= i < word_list@.len() ==> #[trigger] r.candidates@[i]@ == candidate_name(
                    word_list@[i]@,
                    base_domain@,
                ),
            r.next == 0,
            r.in_flight == 0,
            r.limit == MAX_IN_FLIGHT,
            r.found@.len() == 0,
    {
        Dispatch::start(generate_candidates(base_domain, word_list), MAX_IN_FLIGHT)
    }

    /// A passive scan over certificate entries: the candidates are the
    /// entries' common names, wildcard marker taken off, that are subdomains
    /// of `base_domain`; they are resolved one at a time.
    pub fn passive(base_domain: &String, certs: &Vec<CertEntry>) -> (r: Dispatch)
        ensures
            r.wf(),
            r.candidate_names() == passive_names(common_names(certs@), base_domain@),
            r.next == 0,
            r.in_flight == 0,
            r.limit == 1,
            r.found@.len() == 0,
    {
        Dispatch::start(passive_candidates(base_domain, certs), 1)
    }

    /// The next candidate to resolve, if one is left and a slot is free.
    pub fn next_candidate(&mut self) -> (r: Option<String>)
        requires
            old(self).wf(),
        ensures
            final(self).wf(),
            final(self).candidates@ == old(self).candidates@,
            final(self).limit == old(self).limit,
            final(self).found@ == old(self).found@,
            (old(self).in_flight < old(self).limit && old(self).next
                < old(self).candidates@.len()) ==> {
                &&& r is Some
                &&& r->0@ == old(self).candidates@[old(self).next as int]@
                &&& final(self).next == old(self).next + 1
                &&& final(self).in_flight == old(self).in_flight + 1
            },
            !(old(self).in_flight < old(self).limit && old(self).next
                < old(self).candidates@.len()) ==> {
                &&& r is None
                &&& final(self).next == old(self).next
                &&& final(self).in_flight == old(self).in_flight
            },
    {
        if self.in_flight < self.limit && self.next < self.candidates.len() {
            let c = self.candidates[self.next].clone();
            self.next = self.next + 1;
            self.in_flight = self.in_flight + 1;
            Some(c)
        } else {
            None
        }
    }

    /// Reports that the resolution of `domain_name` finished with `ips`;
    /// the name is kept only where it resolved to at least one address.
    pub fn complete(&mut self, domain_name: String, ips: Vec<IpAddress>)
        requires
            old(self).wf(),
            old(self).in_flight > 0,
        ensures
            final(self).wf(),
            final(self).candidates@ == old(self).candidates@,
            final(self).limit == old(self).limit,
            final(self).next == old(self).next,
            final(self).in_flight == old(self).in_flight - 1,
            ips@.len() > 0 ==> final(self).found@ == old(self).found@.push(
                (Domain { domain_name, ips }),
            ),
            ips@.len() == 0 ==> final(self).found@ == old(self).found@,
    {
        self.in_flight = self.in_flight - 1;
        if ips.len() > 0 {
            self.found.push(Domain { domain_name, ips });
        }
    }

    /// Whether every candidate has been handed out and reported back.
    pub fn is_finished(&self) -> (r: bool)
        requires
            self.wf(),
        ensures
            r == (self.next == self.candidates@.len() && self.in_flight == 0),
    {
        self.next == self.candidates.len() && self.in_flight == 0
    }

    /// The names kept so far, in completion order.
    pub fn into_domains(self) -> (r: Vec<Domain>)
        requires
            self.wf(),
        ensures
            r@ == self.found@,
            all_resolved(r@),
    {
        self.found
    }
}

/// However the dispatcher is driven, no more than `MAX_IN_FLIGHT`
/// resolutions are ever in flight at once.
pub proof fn in_flight_within_cap(d: Dispatch)
    requires
        d.wf(),
    ensures
        d.in_flight <= MAX_IN_FLIGHT,
{
}

/// Every name a dispatcher keeps resolved to at least one address: names
/// without addresses never reach the results.
pub proof fn kept_names_have_addresses(d: Dispatch, k: int)
    requires
        d.wf(),
        0 <= k < d.found@.len(),
    ensures
        d.found@[k].ips@.len() > 0,
{
}

/// A passive scan over no certificate entries is finished from the start
/// and keeps nothing.
pub proof fn passive_scan_without_entries(d: Dispatch, apex: Seq<char>)
    requires
        d.wf(),
        d.candidate_names() == passive_names(common_names(Seq::<CertEntry>::empty()), apex),
        d.next == 0,
        d.in_flight == 0,
        d.found@.len() == 0,
    ensures
        d.candidates@.len() == 0,
        d.next == d.candidates@.len() && d.in_flight == 0,
{
    crate::names::no_entries_no_candidates(apex);
    assert(d.candidate_names().len() == d.candidates@.len());
}

} // verus!
