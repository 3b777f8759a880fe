use vstd::prelude::*;

use crate::model::Domain;

verus! {

/// Where a scan stands.
#[derive(Clone, Copy, Debug, PartialEq, Eq)]
pub enum ScanStatus {
    Ready,
    Done,
    Timeout,
    Error,
}

/// The outcome of a scan.
#[derive(Clone, Debug)]
pub struct DomainScanResult {
    /// The names that resolved, in the order their resolutions completed.
    pub domains: Vec<Domain>,
    /// Milliseconds from the start to the end of the scan.
    pub scan_time_ms: u64,
    /// How the scan ended.
    pub scan_status: ScanStatus,
}

impl Domain {
    /// A copy of this domain, with the same name and addresses.
    pub fn duplicate(&self) -> (r: Domain)
        ensures
            r@ == self@,
    {
        let mut ips: Vec<crate::model::IpAddress> = Vec::new();
        let mut i: usize = 0;
        while i < self.ips.len()
            invariant
                i <= self.ips@.len(),
                ips@ == self.ips@.take(i as int),
            decreases self.ips@.len() - i,
        {
            ips.push(self.ips[i]);
            i = i + 1;
        }
        assert(ips@ =~= self.ips@);
        Domain { domain_name: self.domain_name.clone(), ips }
    }
}

/// The views of a list of domains.
pub open spec fn domain_views(ds: Seq<Domain>) -> Seq<crate::model::DomainView> {
    ds.map_values(|d: Domain| d@)
}

/// A copy of a list of domains, in the same order.
pub fn duplicate_domains(ds: &Vec<Domain>) -> (r: Vec<Domain>)
    ensures
        domain_views(r@) == domain_views(ds@),
{
    let mut r: Vec<Domain> = Vec::new();
    let mut i: usize = 0;
    while i < ds.len()
        invariant
            i <= ds@.len(),
            domain_views(r@) == domain_views(ds@.take(i as int)),
        decreases ds@.len() - i,
    {
        let d = ds[i].duplicate();
        let ghost before = r@;
        r.push(d);
        assert(ds@.take(i + 1) =~= ds@.take(i as int).push(ds@[i as int]));
        assert(domain_views(r@) =~= domain_views(before).push(d@));
        assert(domain_views(ds@.take(i + 1)) =~= domain_views(ds@.take(i as int)).push(
            ds@[i as int]@,
        ));
        i = i + 1;
    }
    assert(ds@.take(ds@.len() as int) =~= ds@);
    r
}

impl DomainScanResult {
    /// The result before any scan: no domains, no time, status `Ready`.
    pub fn new() -> (r: DomainScanResult)
        ensures
            r.domains@.len() == 0,
            r.scan_time_ms == 0,
            r.scan_status == ScanStatus::Ready,
    {
        DomainScanResult { domains: Vec::new(), scan_time_ms: 0, scan_status: ScanStatus::Ready }
    }

    /// A copy of this result.
    pub fn duplicate(&self) -> (r: DomainScanResult)
        ensures
            domain_views(r.domains@) == domain_views(self.domains@),
            r.scan_time_ms == self.scan_time_ms,
            r.scan_status == self.scan_status,
    {
        DomainScanResult {
            domains: duplicate_domains(&self.domains),
            scan_time_ms: self.scan_time_ms,
            scan_status: self.scan_status,
        }
    }
}

} // verus!
