//! Addresses, scan targets and the scanner's source identity.
//!
//! An address is held as its raw octets so that every field the codec
//! reads is a plain byte.  The spec-level mirror types (`SpecIpAddr`,
//! `SpecTarget`, `SpecSrcConfig`) carry the same data as mathematical
//! sequences; the `View` impls connect the two.

use vstd::prelude::*;

verus! {

/// Spec-level mirror of `IpAddr`: the octets of the address.
pub enum SpecIpAddr {
    V4(Seq<u8>),
    V6(Seq<u8>),
}

impl SpecIpAddr {
    /// The raw octets, 4 for a version-4 address and 16 for a version-6 one.
    pub open spec fn octets(self) -> Seq<u8> {
        match self {
            SpecIpAddr::V4(o) => o,
            SpecIpAddr::V6(o) => o,
        }
    }

    pub open spec fn wf(self) -> bool {
        match self {
            SpecIpAddr::V4(o) => o.len() == 4,
            SpecIpAddr::V6(o) => o.len() == 16,
        }
    }

    /// The address as 16 version-6 octets: a version-4 address is promoted
    /// to its mapped form `::ffff:a.b.c.d`.
    pub open spec fn as_v6_octets(self) -> Seq<u8> {
        match self {
            SpecIpAddr::V4(o) => spec_v6_mapped(o),
            SpecIpAddr::V6(o) => o,
        }
    }
}

/// The mapped version-6 form of four version-4 octets.
pub open spec fn spec_v6_mapped(o: Seq<u8>) -> Seq<u8> {
    seq![0u8, 0u8, 0u8, 0u8, 0u8, 0u8, 0u8, 0u8, 0u8, 0u8, 0xffu8, 0xffu8, o[0], o[1], o[2], o[3]]
}

/// An IP address, either family, held as raw octets.
#[derive(Clone, Copy, Debug, PartialEq, Eq)]
pub enum IpAddr {
    V4([u8; 4]),
    V6([u8; 16]),
}

impl View for IpAddr {
    type V = SpecIpAddr;

    open spec fn view(&self) -> SpecIpAddr {
        match self {
            IpAddr::V4(o) => SpecIpAddr::V4(o@),
            IpAddr::V6(o) => SpecIpAddr::V6(o@),
        }
    }
}

impl IpAddr {
    pub fn is_ipv4(&self) -> (r: bool)
        ensures
            r == (self@ is V4),
    {
        match self {
            IpAddr::V4(_) => true,
            IpAddr::V6(_) => false,
        }
    }

    pub fn is_ipv6(&self) -> (r: bool)
        ensures
            r == (self@ is V6),
    {
        match self {
            IpAddr::V4(_) => false,
            IpAddr::V6(_) => true,
        }
    }

    /// The address as 16 version-6 octets, a version-4 address promoted to
    /// its mapped form.
    pub fn to_v6_octets(&self) -> (r: [u8; 16])
        ensures
            r@ == self@.as_v6_octets(),
    {
        match self {
            IpAddr::V4(o) => {
                let r = [
                    0u8, 0u8, 0u8, 0u8, 0u8, 0u8, 0u8, 0u8, 0u8, 0u8, 0xffu8, 0xffu8, o[0], o[1],
                    o[2], o[3],
                ];
                proof {
                    assert(r@ =~= spec_v6_mapped(o@));
                }
                r
            },
            IpAddr::V6(o) => *o,
        }
    }
}

/// One host/port pair the scan probes.
#[derive(Clone, Copy, Debug, PartialEq, Eq)]
pub struct Target {
    pub ip: IpAddr,
    pub port: u16,
}

/// Spec-level mirror of `Target`.
pub struct SpecTarget {
    pub ip: SpecIpAddr,
    pub port: u16,
}

impl View for Target {
    type V = SpecTarget;

    open spec fn view(&self) -> SpecTarget {
        SpecTarget { ip: self.ip@, port: self.port }
    }
}

/// A target that answered a probe, reconstructed from the source fields of
/// a received frame.
pub type Responder = Target;

/// The spec-level view of an optional responder.
pub open spec fn spec_view_opt(r: Option<Target>) -> Option<SpecTarget> {
    match r {
        Some(t) => Some(t@),
        None => None,
    }
}

/// The scanner's own identity: constant for a whole scan, it fills the
/// link and IP source fields of every probe.
#[derive(Clone, Copy, Debug)]
pub struct SrcConfig {
    pub src_mac: [u8; 6],
    pub dst_mac: [u8; 6],
    pub src_ip: IpAddr,
    pub src_port: u16,
}

/// Spec-level mirror of `SrcConfig`.
pub struct SpecSrcConfig {
    pub src_mac: Seq<u8>,
    pub dst_mac: Seq<u8>,
    pub src_ip: SpecIpAddr,
    pub src_port: u16,
}

impl View for SrcConfig {
    type V = SpecSrcConfig;

    open spec fn view(&self) -> SpecSrcConfig {
        SpecSrcConfig {
            src_mac: self.src_mac@,
            dst_mac: self.dst_mac@,
            src_ip: self.src_ip@,
            src_port: self.src_port,
        }
    }
}

} // verus!
