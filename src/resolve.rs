//! Choosing the address that a run probes.
use vstd::prelude::*;
use crate::packet::IpFamily;

verus! {

/// An IP address as plain numbers: an IPv4 address as its 32 bits, an IPv6
/// address as its 128 bits, most significant first.
#[derive(Clone, Copy, Debug, PartialEq, Eq, Structural)]
pub enum IpAddress {
    V4(u32),
    V6(u128),
}

/// The family that an address belongs to.
pub open spec fn family_of(a: IpAddress) -> IpFamily {
    match a {
        IpAddress::V4(_) => IpFamily::V4,
        IpAddress::V6(_) => IpFamily::V6,
    }
}

impl IpAddress {
    /// The family of this address, which selects socket and packet format.
    pub fn family(&self) -> (r: IpFamily)
        ensures
            r == family_of(*self),
    {
        match self {
            IpAddress::V4(_) => IpFamily::V4,
            IpAddress::V6(_) => IpFamily::V6,
        }
    }
}

/// Why a host could not be turned into an address.
#[derive(Debug, PartialEq, Eq)]
pub enum ResolutionError {
    /// The name lookup succeeded but returned no address.
    NoAddresses { host: String },
    /// The name lookup itself failed, for the reason in `cause`.
    LookupFailed { host: String, cause: String },
}

/// Picks the address for `host`. `literal` is `host` read as an IP address
/// literal, if it is one; it wins. Otherwise `lookup` is the outcome of the
/// name lookup of `host`, and its first address wins. The lookup is consulted
/// only when `literal` is `None`.
pub fn resolve_host(
    host: &str,
    literal: Option<IpAddress>,
    lookup: Result<Vec<IpAddress>, String>,
) -> (r: Result<IpAddress, ResolutionError>)
    ensures
        literal is Some ==> r == Ok::<IpAddress, ResolutionError>(literal->0),
        literal is None ==> match lookup {
            Ok(addrs) => if addrs@.len() > 0 {
                r == Ok::<IpAddress, ResolutionError>(addrs@[0])
            } else {
                r matches Err(ResolutionError::NoAddresses { host: h }) && h@ == host@
            },
            Err(cause) => r matches Err(ResolutionError::LookupFailed { host: h, cause: c })
                && h@ == host@ && c == cause,
        },
{
    if let Some(address) = literal {
        return Ok(address);
    }
    match lookup {
        Ok(addrs) => {
            if addrs.len() > 0 {
                Ok(addrs[0])
            } else {
                Err(ResolutionError::NoAddresses { host: host.to_owned() })
            }
        },
        Err(cause) => Err(ResolutionError::LookupFailed { host: host.to_owned(), cause }),
    }
}

} // verus!
