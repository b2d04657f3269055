//! The routing table: which egress stream serves which virtual address.

use std::collections::HashMap;
use vstd::prelude::*;

verus! {

broadcast use vstd::std_specs::hash::group_hash_axioms;

/// A freshly upgraded session: its virtual address and the two halves of
/// its stream.
#[derive(Debug, PartialEq, Eq)]
pub struct RoutingInfo<R, S> {
    /// Virtual IPv4 address, most significant octet first.
    pub ip: u32,
    pub recv: R,
    pub send: S,
}

/// The routes of the relay, `S` being the handle on an egress stream.
pub struct RouteTable<S> {
    routes: HashMap<u32, S>,
}

impl<S> View for RouteTable<S> {
    type V = Map<u32, S>;

    closed spec fn view(&self) -> Map<u32, S> {
        self.routes@
    }
}

impl<S> RouteTable<S> {
    /// A table without routes.
    pub fn new() -> (table: Self)
        ensures
            table@ == Map::<u32, S>::empty(),
    {
        RouteTable { routes: HashMap::new() }
    }

    /// Number of routes.
    pub fn len(&self) -> (n: usize)
        ensures
            n == self@.len(),
    {
        self.routes.len()
    }

    /// Registers `send` under `ip` and returns the stream that was
    /// registered there before, if any. Other routes stay.
    pub fn insert(&mut self, ip: u32, send: S) -> (replaced: Option<S>)
        ensures
            final(self)@ == old(self)@.insert(ip, send),
            match replaced {
                Some(stream) => old(self)@.contains_key(ip) && stream == old(self)@[ip],
                None => !old(self)@.contains_key(ip),
            },
    {
        self.routes.insert(ip, send)
    }

    /// The stream registered under `ip`, if any.
    pub fn get(&self, ip: u32) -> (found: Option<&S>)
        ensures
            match found {
                Some(stream) => self@.contains_key(ip) && *stream == self@[ip],
                None => !self@.contains_key(ip),
            },
    {
        self.routes.get(&ip)
    }

    /// Whether a stream is registered under `ip`.
    pub fn contains(&self, ip: u32) -> (found: bool)
        ensures
            found == self@.contains_key(ip),
    {
        self.routes.contains_key(&ip)
    }
}

/// Takes a freshly upgraded session into the table: registers its send
/// half under its address and hands back its receive half, for the
/// forwarder that is to read from it.
pub fn handle_routing<R, S>(route_table: &mut RouteTable<S>, info: RoutingInfo<R, S>) -> (recv: R)
    ensures
        final(route_table)@ == old(route_table)@.insert(info.ip, info.send),
        recv == info.recv,
{
    let RoutingInfo { ip, recv, send } = info;
    let _ = route_table.insert(ip, send);
    recv
}

} // verus!
