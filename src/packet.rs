//! Echo Request construction and Echo Reply validation, for each address
//! family.
use vstd::prelude::*;
use crate::checksum::{
    calculate_icmp_checksum, icmp_checksum, lemma_checksum_verifies, with_checksum_field,
};

verus! {

/// ICMPv4 Echo Request type.
pub const ICMPV4_ECHO_REQUEST: u8 = 8;

/// ICMPv4 Echo Reply type.
pub const ICMPV4_ECHO_REPLY: u8 = 0;

/// ICMPv6 Echo Request type.
pub const ICMPV6_ECHO_REQUEST: u8 = 128;

/// ICMPv6 Echo Reply type.
pub const ICMPV6_ECHO_REPLY: u8 = 129;

/// Length of the ICMP header that every echo message starts with.
pub const ICMP_HEADER_LEN: usize = 8;

/// Length of the IPv4 header that a raw IPv4 socket hands back before the
/// ICMP message.
pub const IPV4_HEADER_LEN: usize = 20;

/// An Echo Request header of the given type (code 0, checksum 0,
/// identifier 1, sequence number 1) followed by `size` filler bytes, where
/// the byte at packet index `i` is `i mod 256`.
pub open spec fn echo_request_template(kind: u8, size: nat) -> Seq<u8> {
    Seq::new(
        (8 + size) as nat,
        |i: int|
            if i == 0 {
                kind
            } else if i == 5 || i == 7 {
                1u8
            } else if i < 8 {
                0u8
            } else {
                (i % 256) as u8
            },
    )
}

/// The ICMPv4 Echo Request of payload `size`, checksum filled in.
pub open spec fn icmpv4_echo_request(size: nat) -> Seq<u8> {
    let t = echo_request_template(ICMPV4_ECHO_REQUEST, size);
    with_checksum_field(t, icmp_checksum(t))
}

/// The ICMPv6 Echo Request of payload `size`; the checksum stays zero, as
/// the network stack computes it over a pseudo-header.
pub open spec fn icmpv6_echo_request(size: nat) -> Seq<u8> {
    echo_request_template(ICMPV6_ECHO_REQUEST, size)
}

fn fill_echo_request(kind: u8, size: u64) -> (r: Vec<u8>)
    requires
        size + 8 <= usize::MAX,
    ensures
        r@ == echo_request_template(kind, size as nat),
{
    let len: usize = 8 + size as usize;
    let mut packet: Vec<u8> = Vec::with_capacity(len);
    packet.push(kind);
    packet.push(0);
    packet.push(0);
    packet.push(0);
    packet.push(0);
    packet.push(1);
    packet.push(0);
    packet.push(1);
    let mut i: usize = 8;
    while i < len
        invariant
            8 <= i <= len,
            len == 8 + size,
            packet@.len() == i,
            forall|j: int|
                0 <= j < i ==> packet@[j] == #[trigger] echo_request_template(
                    kind,
                    size as nat,
                )[j],
        decreases len - i,
    {
        packet.push((i % 256) as u8);
        i = i + 1;
    }
    assert(packet@ =~= echo_request_template(kind, size as nat));
    packet
}

/// Builds an ICMPv4 Echo Request with `size` bytes of payload and its
/// checksum stamped big-endian into bytes 2 and 3.
pub fn build_icmpv4_packet(size: u64) -> (r: Vec<u8>)
    requires
        size + 8 <= usize::MAX,
    ensures
        r@ == icmpv4_echo_request(size as nat),
        r@.len() == 8 + size,
        r@[0] == ICMPV4_ECHO_REQUEST,
        r@[1] == 0,
        forall|i: int| 8 <= i < r@.len() ==> r@[i] == (i % 256) as u8,
        icmp_checksum(r@) == 0,
{
    let mut packet = fill_echo_request(ICMPV4_ECHO_REQUEST, size);
    let ghost t = packet@;
    let checksum = calculate_icmp_checksum(packet.as_slice());
    packet.set(2, (checksum >> 8) as u8);
    packet.set(3, (checksum & 0xff) as u8);
    assert((checksum >> 8) as u8 == (checksum / 256) as u8 && (checksum & 0xff) as u8 == (
    checksum % 256) as u8) by (bit_vector);
    assert(packet@ =~= with_checksum_field(t, checksum));
    proof {
        lemma_checksum_verifies(t);
    }
    packet
}

/// Builds an ICMPv6 Echo Request with `size` bytes of payload. Its checksum
/// field is left zero for the network stack to fill in.
pub fn build_icmpv6_packet(size: u64) -> (r: Vec<u8>)
    requires
        size + 8 <= usize::MAX,
    ensures
        r@ == icmpv6_echo_request(size as nat),
        r@.len() == 8 + size,
        r@[0] == ICMPV6_ECHO_REQUEST,
        r@[1] == 0,
        r@[2] == 0,
        r@[3] == 0,
        forall|i: int| 8 <= i < r@.len() ==> r@[i] == (i % 256) as u8,
{
    fill_echo_request(ICMPV6_ECHO_REQUEST, size)
}

/// Whether the first `count` bytes of `buf`, as a raw IPv4 socket delivers
/// them (IP header first), hold an ICMPv4 Echo Reply.
pub open spec fn is_icmpv4_echo_reply(buf: Seq<u8>, count: nat) -> bool {
    count >= IPV4_HEADER_LEN + ICMP_HEADER_LEN && buf[IPV4_HEADER_LEN as int] == ICMPV4_ECHO_REPLY
}

/// Whether the first `count` bytes of `buf`, as a raw ICMPv6 socket delivers
/// them (no IP header), hold an ICMPv6 Echo Reply.
pub open spec fn is_icmpv6_echo_reply(buf: Seq<u8>, count: nat) -> bool {
    count >= ICMP_HEADER_LEN && buf[0] == ICMPV6_ECHO_REPLY
}

/// Accepts a received IPv4 datagram of `bytes_received` bytes as an Echo
/// Reply when it is long enough for the IP and ICMP headers and the ICMP type
/// is Echo Reply. Identifier and sequence number are not compared.
pub fn validate_icmpv4_reply(buffer: &[u8], bytes_received: usize) -> (r: bool)
    requires
        bytes_received <= buffer@.len(),
    ensures
        r == is_icmpv4_echo_reply(buffer@, bytes_received as nat),
{
    if bytes_received >= IPV4_HEADER_LEN + ICMP_HEADER_LEN {
        buffer[IPV4_HEADER_LEN] == ICMPV4_ECHO_REPLY
    } else {
        false
    }
}

/// Accepts a received ICMPv6 message of `bytes_received` bytes as an Echo
/// Reply when it holds a whole ICMP header of type Echo Reply.
pub fn validate_icmpv6_reply(buffer: &[u8], bytes_received: usize) -> (r: bool)
    requires
        bytes_received <= buffer@.len(),
    ensures
        r == is_icmpv6_echo_reply(buffer@, bytes_received as nat),
{
    if bytes_received >= ICMP_HEADER_LEN {
        buffer[0] == ICMPV6_ECHO_REPLY
    } else {
        false
    }
}

/// The address family of a run; it selects packet format, reply format and
/// socket domain for every probe.
#[derive(Clone, Copy, Debug, PartialEq, Eq, Structural)]
pub enum IpFamily {
    V4,
    V6,
}

impl IpFamily {
    /// The Echo Request that a probe of this family sends.
    pub open spec fn echo_request(self, size: nat) -> Seq<u8> {
        match self {
            IpFamily::V4 => icmpv4_echo_request(size),
            IpFamily::V6 => icmpv6_echo_request(size),
        }
    }

    /// Whether a received buffer is an Echo Reply of this family.
    pub open spec fn is_echo_reply(self, buf: Seq<u8>, count: nat) -> bool {
        match self {
            IpFamily::V4 => is_icmpv4_echo_reply(buf, count),
            IpFamily::V6 => is_icmpv6_echo_reply(buf, count),
        }
    }

    /// Builds the Echo Request of this family with `size` bytes of payload.
    pub fn build_packet(self, size: u64) -> (r: Vec<u8>)
        requires
            size + 8 <= usize::MAX,
        ensures
            r@ == self.echo_request(size as nat),
    {
        match self {
            IpFamily::V4 => build_icmpv4_packet(size),
            IpFamily::V6 => build_icmpv6_packet(size),
        }
    }

    /// Checks a received buffer against the Echo Reply format of this family.
    pub fn validate_reply(self, buffer: &[u8], bytes_received: usize) -> (r: bool)
        requires
            bytes_received <= buffer@.len(),
        ensures
            r == self.is_echo_reply(buffer@, bytes_received as nat),
    {
        match self {
            IpFamily::V4 => validate_icmpv4_reply(buffer, bytes_received),
            IpFamily::V6 => validate_icmpv6_reply(buffer, bytes_received),
        }
    }
}

} // verus!
