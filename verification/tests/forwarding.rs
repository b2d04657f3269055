use lanshare::packet::{destination, next_packet, parse_ipv4, parsepkt, Forward, Ipv4Header, ParseError};
use lanshare::routing::{handle_routing, RouteTable, RoutingInfo};

fn datagram(first: u8, destination: [u8; 4]) -> Vec<u8> {
    let mut pkt = vec![first, 0, 0, 20, 0, 0, 0, 0, 64, 17, 0, 0, 25, 0, 0, 9];
    pkt.extend_from_slice(&destination);
    pkt
}

#[test]
fn datagram_goes_to_the_stream_of_its_destination() {
    let mut table: RouteTable<&str> = RouteTable::new();
    assert_eq!(table.insert(0x1901_0203, "alice"), None);
    assert_eq!(table.insert(0x1904_0506, "bob"), None);
    let pkt = datagram(0x45, [25, 1, 2, 3]);
    assert_eq!(pkt.len(), 20);
    assert_eq!(parsepkt(&pkt, &table), Forward::Deliver { stream: &"alice", bytes: &pkt[..] });
    let other = datagram(0x45, [25, 4, 5, 6]);
    assert_eq!(parsepkt(&other, &table), Forward::Deliver { stream: &"bob", bytes: &other[..] });
}

#[test]
fn datagram_without_a_route_is_dropped() {
    let mut table: RouteTable<&str> = RouteTable::new();
    table.insert(0x1901_0203, "alice");
    let pkt = datagram(0x45, [25, 1, 2, 4]);
    assert_eq!(parsepkt(&pkt, &table), Forward::NoRoute);
    let empty: RouteTable<&str> = RouteTable::new();
    assert_eq!(parsepkt(&datagram(0x45, [25, 1, 2, 3]), &empty), Forward::NoRoute);
}

#[test]
fn ipv6_is_dropped_without_notice() {
    let mut table: RouteTable<u8> = RouteTable::new();
    table.insert(0x1901_0203, 1);
    let mut pkt = datagram(0x60, [25, 1, 2, 3]);
    pkt.extend_from_slice(&[0u8; 20]);
    assert_eq!(parsepkt(&pkt, &table), Forward::Ipv6);
}

#[test]
fn what_is_no_ipv4_datagram_is_malformed() {
    let mut table: RouteTable<u8> = RouteTable::new();
    table.insert(0x1901_0203, 1);
    assert_eq!(parsepkt(&[], &table), Forward::Malformed(ParseError::Len));
    assert_eq!(parsepkt(&[0x45; 19], &table), Forward::Malformed(ParseError::Len));
    assert_eq!(parsepkt(&[0x60; 19], &table), Forward::Malformed(ParseError::Len));
    assert_eq!(
        parsepkt(&datagram(0x55, [25, 1, 2, 3]), &table),
        Forward::Malformed(ParseError::UnexpectedVersion { version_number: 5 })
    );
    assert_eq!(
        parsepkt(&datagram(0x05, [25, 1, 2, 3]), &table),
        Forward::Malformed(ParseError::UnexpectedVersion { version_number: 0 })
    );
    assert_eq!(
        parsepkt(&datagram(0x44, [25, 1, 2, 3]), &table),
        Forward::Malformed(ParseError::HeaderLengthSmallerThanHeader { ihl: 4 })
    );
    assert_eq!(parsepkt(&datagram(0x46, [25, 1, 2, 3]), &table), Forward::Malformed(ParseError::Len));
}

#[test]
fn header_options_do_not_move_the_destination() {
    let mut table: RouteTable<u8> = RouteTable::new();
    table.insert(0x1901_0203, 1);
    let mut pkt = datagram(0x46, [25, 1, 2, 3]);
    pkt.extend_from_slice(&[1, 1, 1, 0]);
    assert_eq!(parsepkt(&pkt, &table), Forward::Deliver { stream: &1, bytes: &pkt[..] });
    assert_eq!(destination(&pkt), Ok(0x1901_0203));
}

#[test]
fn destination_is_read_from_the_header() {
    assert_eq!(destination(&datagram(0x45, [25, 1, 2, 3])), Ok(419496451));
    assert_eq!(destination(&datagram(0x45, [0, 0, 0, 0])), Ok(0));
    assert_eq!(destination(&datagram(0x45, [255, 255, 255, 255])), Ok(u32::MAX));
    assert_eq!(destination(&[0x45, 0]), Err(ParseError::Len));
    assert_eq!(
        destination(&datagram(0x65, [25, 1, 2, 3])),
        Err(ParseError::UnexpectedVersion { version_number: 6 })
    );
    let header = Ipv4Header { source: [25, 0, 0, 9], destination: [25, 1, 2, 3] };
    assert_eq!(parse_ipv4(header), 0x1901_0203);
}

#[test]
fn a_later_route_replaces_an_earlier_one() {
    let mut table: RouteTable<&str> = RouteTable::new();
    assert_eq!(table.len(), 0);
    assert_eq!(table.insert(7, "first"), None);
    assert_eq!(table.insert(7, "second"), Some("first"));
    assert_eq!(table.len(), 1);
    assert_eq!(table.get(7), Some(&"second"));
    assert_eq!(table.get(8), None);
    assert!(table.contains(7));
    assert!(!table.contains(8));
}

#[test]
fn routing_info_is_split_between_table_and_forwarder() {
    let mut table: RouteTable<&str> = RouteTable::new();
    let recv = handle_routing(&mut table, RoutingInfo { ip: 0x1901_0203, recv: 11u8, send: "send" });
    assert_eq!(recv, 11);
    assert_eq!(table.get(0x1901_0203), Some(&"send"));
    assert_eq!(table.len(), 1);
}

#[test]
fn forwarder_stops_at_the_end_of_the_stream() {
    let buf = [1u8, 2, 3, 4];
    assert_eq!(next_packet(Some(3), &buf), Some(&buf[..3]));
    assert_eq!(next_packet(Some(4), &buf), Some(&buf[..]));
    assert_eq!(next_packet(Some(0), &buf), None);
    assert_eq!(next_packet(None, &buf), None);
    assert_eq!(next_packet(Some(5), &buf), None);
}
