//! The packet forwarder: where a datagram read from one session goes.
//!
//! One read from a session's stream is one IPv4 datagram. Its destination
//! address picks the stream it is written to, byte for byte; a datagram
//! that is no IPv4 datagram, or whose destination has no route, is dropped.

use crate::octets::{from_octets, join_seq};
use crate::routing::RouteTable;
use etherparse::err::ipv4::{HeaderError, HeaderSliceError};
use vstd::prelude::*;
use vstd::slice::slice_subrange;

verus! {

/// Length of an IPv4 header without options.
pub const MIN_HEADER_LEN: usize = 20;

/// Size of the buffer that a forwarder reads into.
pub const READ_BUF_LEN: usize = 4096;

/// The addresses of an IPv4 header, each most significant octet first.
#[derive(Clone, Copy, Debug, PartialEq, Eq)]
pub struct Ipv4Header {
    pub source: [u8; 4],
    pub destination: [u8; 4],
}

/// Why the start of a datagram is no IPv4 header.
#[derive(Clone, Copy, Debug, PartialEq, Eq, Structural)]
pub enum ParseError {
    /// The datagram ends before the header does.
    Len,
    /// The version field is not 4.
    UnexpectedVersion { version_number: u8 },
    /// The header length field is below 5, the length of a header without
    /// options in 32-bit words.
    HeaderLengthSmallerThanHeader { ihl: u8 },
}

/// The version field of a datagram that starts with `first`.
pub open spec fn version_of(first: u8) -> u8 {
    first / 16
}

/// The header length field, in 32-bit words, of a datagram that starts
/// with `first`.
pub open spec fn ihl_of(first: u8) -> u8 {
    first % 16
}

/// Why `pkt` does not start with an IPv4 header, if it does not. The checks
/// come in this order: twenty bytes, version, header length field, the
/// whole header with its options.
pub open spec fn header_fault(pkt: Seq<u8>) -> Option<ParseError> {
    if pkt.len() < MIN_HEADER_LEN {
        Some(ParseError::Len)
    } else if version_of(pkt[0]) != 4 {
        Some(ParseError::UnexpectedVersion { version_number: version_of(pkt[0]) })
    } else if ihl_of(pkt[0]) < 5 {
        Some(ParseError::HeaderLengthSmallerThanHeader { ihl: ihl_of(pkt[0]) })
    } else if pkt.len() < ihl_of(pkt[0]) * 4 {
        Some(ParseError::Len)
    } else {
        None
    }
}

/// The destination address in the header of `pkt`.
pub open spec fn destination_of(pkt: Seq<u8>) -> u32
    recommends
        pkt.len() >= MIN_HEADER_LEN,
{
    join_seq(pkt.subrange(16, 20))
}

/// Reads the IPv4 header at the start of `pkt` with
/// `etherparse::Ipv4Header::from_slice`.
///
/// The contract restates the checks of that function: a slice of under
/// twenty bytes, a version other than 4, a header length field under 5 and
/// a slice shorter than the header length field asks for are turned down,
/// in this order, each with its own error. Of an accepted header the
/// source address is bytes 12 to 15 of the slice and the destination
/// address bytes 16 to 19.
#[verifier::external_body]
fn ipv4_header_from_slice(pkt: &[u8]) -> (res: Result<Ipv4Header, ParseError>)
    ensures
        match res {
            Ok(header) => {
                &&& header_fault(pkt@) is None
                &&& header.source@ == pkt@.subrange(12, 16)
                &&& header.destination@ == pkt@.subrange(16, 20)
            },
            Err(e) => header_fault(pkt@) == Some(e),
        },
{
    match etherparse::Ipv4Header::from_slice(pkt) {
        Ok((h, _)) => Ok(Ipv4Header { source: h.source, destination: h.destination }),
        Err(HeaderSliceError::Len(_)) => Err(ParseError::Len),
        Err(HeaderSliceError::Content(HeaderError::UnexpectedVersion { version_number })) => {
            Err(ParseError::UnexpectedVersion { version_number })
        },
        Err(HeaderSliceError::Content(HeaderError::HeaderLengthSmallerThanHeader { ihl })) => {
            Err(ParseError::HeaderLengthSmallerThanHeader { ihl })
        },
    }
}

/// The destination address of a header, as one word.
pub fn parse_ipv4(header: Ipv4Header) -> (address: u32)
    ensures
        address == join_seq(header.destination@),
{
    from_octets(header.destination)
}

/// Reads the header of a datagram and returns its destination address.
pub fn destination(pkt: &[u8]) -> (res: Result<u32, ParseError>)
    ensures
        match header_fault(pkt@) {
            None => res == Ok::<u32, ParseError>(destination_of(pkt@)),
            Some(e) => res == Err::<u32, ParseError>(e),
        },
{
    match ipv4_header_from_slice(pkt) {
        Ok(header) => Ok(parse_ipv4(header)),
        Err(e) => Err(e),
    }
}

/// What happens to a datagram.
#[derive(Debug, PartialEq, Eq)]
pub enum Forward<'t, 'p, S> {
    /// Write `bytes` to `stream`, holding the stream's lock for this one
    /// write. A failed write is logged and stops nothing.
    Deliver { stream: &'t S, bytes: &'p [u8] },
    /// No stream is registered under the destination: drop without notice.
    NoRoute,
    /// An IPv6 datagram: drop without notice.
    Ipv6,
    /// No IPv4 datagram: warn and drop.
    Malformed(ParseError),
}

/// What happens to a datagram, as contracts see it.
pub enum Verdict<S> {
    Deliver { stream: S, bytes: Seq<u8> },
    NoRoute,
    Ipv6,
    Malformed(ParseError),
}

/// What is to happen to `pkt` with the routes `table`: delivered to the
/// stream registered under its destination, if there is one.
pub open spec fn verdict<S>(table: Map<u32, S>, pkt: Seq<u8>) -> Verdict<S> {
    match header_fault(pkt) {
        None => if table.contains_key(destination_of(pkt)) {
            Verdict::Deliver { stream: table[destination_of(pkt)], bytes: pkt }
        } else {
            Verdict::NoRoute
        },
        Some(ParseError::UnexpectedVersion { version_number }) => if version_number == 6 {
            Verdict::Ipv6
        } else {
            Verdict::Malformed(ParseError::UnexpectedVersion { version_number })
        },
        Some(e) => Verdict::Malformed(e),
    }
}

impl<'t, 'p, S> View for Forward<'t, 'p, S> {
    type V = Verdict<S>;

    open spec fn view(&self) -> Verdict<S> {
        match *self {
            Forward::Deliver { stream, bytes } => Verdict::Deliver { stream: *stream, bytes: bytes@ },
            Forward::NoRoute => Verdict::NoRoute,
            Forward::Ipv6 => Verdict::Ipv6,
            Forward::Malformed(e) => Verdict::Malformed(e),
        }
    }
}

/// Decides what happens to one datagram.
///
/// An IPv4 datagram whose destination has a stream registered in
/// `route_table` is delivered to that stream unchanged; without a route it
/// is dropped. An IPv6 datagram is dropped without notice, anything else
/// that is no IPv4 datagram with a warning. No case is an error of the
/// forwarder.
pub fn parsepkt<'t, 'p, S>(pkt: &'p [u8], route_table: &'t RouteTable<S>) -> (res: Forward<
    't,
    'p,
    S,
>)
    ensures
        res@ == verdict(route_table@, pkt@),
{
    match destination(pkt) {
        Ok(address) => match route_table.get(address) {
            Some(stream) => Forward::Deliver { stream, bytes: pkt },
            None => Forward::NoRoute,
        },
        Err(ParseError::UnexpectedVersion { version_number }) => if version_number == 6 {
            Forward::Ipv6
        } else {
            Forward::Malformed(ParseError::UnexpectedVersion { version_number })
        },
        Err(e) => Forward::Malformed(e),
    }
}

/// The datagram that one read left in `buf`, or `None` where the forwarder
/// is to stop.
///
/// `read` is the number of bytes that the read put at the start of `buf`,
/// or `None` for a failed read. The forwarder stops on a failed read, at
/// the end of the stream (a read of nothing) and on a count that `buf`
/// cannot hold.
pub fn next_packet<'a>(read: Option<usize>, buf: &'a [u8]) -> (pkt: Option<&'a [u8]>)
    ensures
        match pkt {
            Some(bytes) => read is Some && 0 < read->Some_0 <= buf@.len() && bytes@
                == buf@.subrange(0, read->Some_0 as int),
            None => read is None || read->Some_0 == 0 || read->Some_0 > buf@.len(),
        },
{
    match read {
        None => None,
        Some(amount) => if amount == 0 || amount > buf.len() {
            None
        } else {
            Some(slice_subrange(buf, 0, amount))
        },
    }
}

/// A datagram is delivered exactly if it is an IPv4 datagram and a stream
/// is registered under its destination; it then goes to that stream,
/// unchanged.
pub proof fn lemma_delivered_iff_routed<S>(table: Map<u32, S>, pkt: Seq<u8>)
    ensures
        verdict(table, pkt) is Deliver <==> header_fault(pkt) is None && table.contains_key(
            destination_of(pkt),
        ),
        verdict(table, pkt) is Deliver ==> verdict(table, pkt) == (Verdict::Deliver {
            stream: table[destination_of(pkt)],
            bytes: pkt,
        }),
{
}

/// Once a stream is registered under an address, IPv4 datagrams for that
/// address go to it, and datagrams for other addresses go where they went.
pub proof fn lemma_route_after_insert<S>(table: Map<u32, S>, address: u32, stream: S, pkt: Seq<u8>)
    requires
        header_fault(pkt) is None,
    ensures
        destination_of(pkt) == address ==> verdict(table.insert(address, stream), pkt) == (
        Verdict::Deliver { stream, bytes: pkt }),
        destination_of(pkt) != address ==> verdict(table.insert(address, stream), pkt) == verdict(
            table,
            pkt,
        ),
{
}

} // verus!
