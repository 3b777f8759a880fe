use vstd::prelude::*;

verus! {

/// An IP address, held as its octets.
#[derive(Clone, Copy, Debug, PartialEq, Eq)]
pub enum IpAddress {
    V4([u8; 4]),
    V6([u8; 16]),
}

impl IpAddress {
    /// The IPv4 address `a.b.c.d`.
    pub fn v4(a: u8, b: u8, c: u8, d: u8) -> (r: IpAddress)
        ensures
            r == IpAddress::V4([a, b, c, d]),
    {
        IpAddress::V4([a, b, c, d])
    }
}

/// One row of the certificate-transparency log.
#[derive(Clone, Debug)]
pub struct CertEntry {
    pub id: u64,
    pub issuer_ca_id: u32,
    pub issuer_name: String,
    pub common_name: String,
    pub name_value: String,
    pub not_before: String,
    pub not_after: String,
    pub serial_number: String,
    pub entry_timestamp: String,
}

/// A name that resolved, with the addresses it resolved to.
#[derive(Clone, Debug)]
pub struct Domain {
    pub domain_name: String,
    pub ips: Vec<IpAddress>,
}

/// What a `Domain` stands for: its name and its addresses.
pub struct DomainView {
    pub name: Seq<char>,
    pub ips: Seq<IpAddress>,
}

impl View for Domain {
    type V = DomainView;

    open spec fn view(&self) -> DomainView {
        DomainView { name: self.domain_name@, ips: self.ips@ }
    }
}

} // verus!
