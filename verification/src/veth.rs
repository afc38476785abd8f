//! Configuration for a pair of virtual test interfaces.
//!
//! Only the data lives here: the interface names, hardware addresses
//! and IP assignments a test harness gives its two link ends.  Creating
//! and tearing the links down is netlink work done outside this crate.

use vstd::prelude::*;

verus! {

/// A version-4 interface address with its prefix length.
#[derive(Clone, Debug, PartialEq, Eq)]
pub struct LinkIpAddr {
    addr: [u8; 4],
    prefix_len: u8,
}

impl LinkIpAddr {
    /// The address' octets.
    pub closed spec fn spec_octets(&self) -> Seq<u8> {
        self.addr@
    }

    /// The prefix length.
    pub closed spec fn spec_prefix_len(&self) -> u8 {
        self.prefix_len
    }

    pub fn new(addr: [u8; 4], prefix_len: u8) -> (r: LinkIpAddr)
        ensures
            r.spec_octets() == addr@,
            r.spec_prefix_len() == prefix_len,
    {
        LinkIpAddr { addr, prefix_len }
    }

    pub fn octets(&self) -> (r: [u8; 4])
        ensures
            r@ == self.spec_octets(),
    {
        self.addr
    }

    pub fn prefix_len(&self) -> (r: u8)
        ensures
            r == self.spec_prefix_len(),
    {
        self.prefix_len
    }
}

/// The two ends of a virtual link pair: names, hardware addresses and
/// IP assignments.
#[derive(Clone, Debug)]
pub struct VethConfig {
    dev1_if_name: String,
    dev2_if_name: String,
    dev1_addr: [u8; 6],
    dev2_addr: [u8; 6],
    dev1_ip_addr: LinkIpAddr,
    dev2_ip_addr: LinkIpAddr,
}

impl VethConfig {
    pub closed spec fn spec_dev1_name(&self) -> Seq<char> {
        self.dev1_if_name@
    }

    pub closed spec fn spec_dev2_name(&self) -> Seq<char> {
        self.dev2_if_name@
    }

    pub closed spec fn spec_dev1_addr(&self) -> Seq<u8> {
        self.dev1_addr@
    }

    pub closed spec fn spec_dev2_addr(&self) -> Seq<u8> {
        self.dev2_addr@
    }

    pub closed spec fn spec_dev1_ip_addr(&self) -> LinkIpAddr {
        self.dev1_ip_addr
    }

    pub closed spec fn spec_dev2_ip_addr(&self) -> LinkIpAddr {
        self.dev2_ip_addr
    }

    pub fn new(
        dev1_if_name: String,
        dev2_if_name: String,
        dev1_addr: [u8; 6],
        dev2_addr: [u8; 6],
        dev1_ip_addr: LinkIpAddr,
        dev2_ip_addr: LinkIpAddr,
    ) -> (r: VethConfig)
        ensures
            r.spec_dev1_name() == dev1_if_name@,
            r.spec_dev2_name() == dev2_if_name@,
            r.spec_dev1_addr() == dev1_addr@,
            r.spec_dev2_addr() == dev2_addr@,
            r.spec_dev1_ip_addr() == dev1_ip_addr,
            r.spec_dev2_ip_addr() == dev2_ip_addr,
    {
        VethConfig { dev1_if_name, dev2_if_name, dev1_addr, dev2_addr, dev1_ip_addr, dev2_ip_addr }
    }

    pub fn dev1_name(&self) -> (r: &str)
        ensures
            r@ == self.spec_dev1_name(),
    {
        self.dev1_if_name.as_str()
    }

    pub fn dev2_name(&self) -> (r: &str)
        ensures
            r@ == self.spec_dev2_name(),
    {
        self.dev2_if_name.as_str()
    }

    pub fn dev1_addr(&self) -> (r: &[u8; 6])
        ensures
            r@ == self.spec_dev1_addr(),
    {
        &self.dev1_addr
    }

    pub fn dev2_addr(&self) -> (r: &[u8; 6])
        ensures
            r@ == self.spec_dev2_addr(),
    {
        &self.dev2_addr
    }

    pub fn dev1_ip_addr(&self) -> (r: &LinkIpAddr)
        ensures
            *r == self.spec_dev1_ip_addr(),
    {
        &self.dev1_ip_addr
    }

    pub fn dev2_ip_addr(&self) -> (r: &LinkIpAddr)
        ensures
            *r == self.spec_dev2_ip_addr(),
    {
        &self.dev2_ip_addr
    }
}

} // verus!
